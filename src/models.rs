//! Records that the engine's collaborators exchange: forum users and
//! badges, calendar meetings, token usage, and the services' settings.
use vstd::prelude::*;
use vstd::string::*;

verus! {

/// A forum user's activity summary.
#[derive(Debug, Clone)]
pub struct DiscourseUserSummary {
    pub likes_given: u32,
    pub likes_received: u32,
    pub topics_entered: u32,
    pub posts_read_count: u32,
    pub days_visited: u32,
    pub topic_count: u32,
    pub post_count: u32,
    pub time_read: u32,
    pub recent_time_read: u32,
    pub can_see_summary_stats: bool,
    pub can_see_user_actions: bool,
    pub topic_ids: Vec<u32>,
    pub replies: Vec<DiscourseReply>,
    pub links: Vec<DiscourseLink>,
    pub most_liked_by_users: Vec<DiscourseUserStats>,
    pub most_liked_users: Vec<DiscourseUserStats>,
    pub most_replied_to_users: Vec<DiscourseUserStats>,
    pub badges: Vec<DiscourseUserBadge>,
    pub top_categories: Vec<DiscourseTopCategory>,
}

/// A badge granted to a forum user.
#[derive(Debug, Clone)]
pub struct DiscourseUserBadge {
    pub id: u32,
    pub granted_at: Option<String>,
    pub created_at: Option<String>,
    pub count: u32,
    pub badge_id: u32,
    pub user_id: i32,
    pub granted_by_id: i32,
}

/// A badge of the forum.
#[derive(Debug, Clone)]
pub struct DiscourseBadge {
    pub id: u32,
    pub name: String,
    pub description: String,
    pub grant_count: u32,
    pub allow_title: bool,
    pub multiple_grant: bool,
    pub icon: String,
    pub image_url: Option<String>,
    pub listable: bool,
    pub enabled: bool,
    pub badge_grouping_id: u32,
    pub system: bool,
    pub slug: String,
    pub manually_grantable: bool,
    pub show_in_post_header: bool,
    pub badge_type_id: u32,
}

/// A kind of badge.
#[derive(Debug, Clone)]
pub struct DiscourseBadgeType {
    pub id: u32,
    pub name: String,
    pub sort_order: u32,
}

/// A topic as a user summary lists it.
#[derive(Debug, Clone)]
pub struct DiscourseTopic {
    pub id: u32,
    pub title: String,
    pub fancy_title: String,
    pub slug: String,
    pub posts_count: u32,
    pub category_id: u32,
    pub like_count: u32,
    pub created_at: String,
}

/// A reply as a user summary lists it.
#[derive(Debug, Clone)]
pub struct DiscourseReply {
    pub post_number: u32,
    pub like_count: u32,
    pub created_at: String,
    pub topic_id: u32,
}

/// A link a user posted.
#[derive(Debug, Clone)]
pub struct DiscourseLink {
    pub url: String,
    pub title: Option<String>,
    pub clicks: u32,
    pub post_number: u32,
    pub topic_id: u32,
}

/// Another user, with how often they interacted.
#[derive(Debug, Clone)]
pub struct DiscourseUserStats {
    pub id: i32,
    pub username: String,
    pub name: Option<String>,
    pub count: u32,
    pub avatar_template: String,
    pub admin: bool,
    pub moderator: bool,
    pub trust_level: u32,
    pub flair_name: Option<String>,
    pub flair_url: Option<String>,
    pub flair_bg_color: Option<String>,
    pub flair_color: Option<String>,
    pub primary_group_name: Option<String>,
}

/// A category a user was active in.
#[derive(Debug, Clone)]
pub struct DiscourseTopCategory {
    pub topic_count: u32,
    pub post_count: u32,
    pub id: u32,
    pub name: String,
    pub color: String,
    pub text_color: String,
    pub slug: String,
    pub read_restricted: bool,
    pub parent_category_id: Option<u32>,
}

/// Whether a calendar event happens once or repeats.
#[derive(Debug, Clone, Copy, PartialEq, Eq, Structural)]
pub enum EventOccurrence {
    Single,
    Recurring,
}

/// A call link found in a calendar event.
#[derive(Debug, Clone)]
pub enum Meeting {
    Zoom(ZoomMeetingData),
    Google(GoogleMeetingData),
    Youtube(YoutubeMeetingData),
}

#[derive(Debug, Clone)]
pub struct ZoomMeetingData {
    pub link: String,
    pub meeting_id: Option<String>,
    pub passcode: Option<String>,
}

#[derive(Debug, Clone)]
pub struct GoogleMeetingData {
    pub link: String,
}

#[derive(Debug, Clone)]
pub struct YoutubeMeetingData {
    pub link: String,
}

/// A user's total token usage.
#[derive(Debug, Clone, Copy)]
pub struct UserUsageStats {
    pub total_prompt_tokens: i64,
    pub total_completion_tokens: i64,
    pub total_tokens: i64,
    pub total_reasoning_tokens: i64,
    pub message_count: i64,
}

/// A user's token usage with one model.
#[derive(Debug, Clone)]
pub struct ModelUsage {
    pub model_name: String,
    pub prompt_tokens: i64,
    pub completion_tokens: i64,
    pub total_tokens: i64,
    pub reasoning_tokens: i64,
    pub message_count: i64,
}

/// A user's token usage on one day.
#[derive(Debug, Clone)]
pub struct DailyUsage {
    pub date: String,
    pub prompt_tokens: i64,
    pub completion_tokens: i64,
    pub total_tokens: i64,
    pub reasoning_tokens: i64,
    pub message_count: i64,
}

/// A forum entity as the search index holds it.
#[derive(Debug, Clone)]
pub struct ForumSearchDocument {
    pub entity_type: String,
    pub discourse_id: Option<String>,
    pub topic_id: Option<i32>,
    pub post_id: Option<i32>,
    pub post_number: Option<i32>,
    pub user_id: Option<i32>,
    pub username: Option<String>,
    pub title: Option<String>,
    pub slug: Option<String>,
    pub pm_issue: Option<i32>,
    pub cooked: Option<String>,
    pub entity_id: String,
}

/// A request to index one page of a topic.
#[derive(Debug, Clone, Copy)]
pub struct DiscourseTopicIndexRequest {
    pub topic_id: i32,
    pub page: u32,
}

/// A forum instance to index.
#[derive(Debug, Clone)]
pub struct DiscourseConfig {
    pub discourse_id: String,
    pub url: String,
    pub scrape_interval: String,
}

/// Whether `c` names forum `id` at `url`, scraped every thirty minutes.
pub open spec fn forum_config(c: DiscourseConfig, id: Seq<char>, url: Seq<char>) -> bool {
    c.discourse_id@ == id && c.url@ == url && c.scrape_interval@ == "30m"@
}

/// The forums that are indexed.
pub fn create_discourse_configs() -> (r: Vec<DiscourseConfig>)
    ensures
        r@.len() == 2,
        forum_config(r@[0], "magicians"@, "https://ethereum-magicians.org"@),
        forum_config(r@[1], "research"@, "https://ethresear.ch"@),
{
    vec![
        DiscourseConfig {
            discourse_id: String::from_str("magicians"),
            url: String::from_str("https://ethereum-magicians.org"),
            scrape_interval: String::from_str("30m"),
        },
        DiscourseConfig {
            discourse_id: String::from_str("research"),
            url: String::from_str("https://ethresear.ch"),
            scrape_interval: String::from_str("30m"),
        },
    ]
}

/// Where the calendar is fetched from.
#[derive(Debug, Clone)]
pub struct ICalConfig {
    pub url: String,
}

/// The project-management meeting data source.
#[derive(Debug, Clone, Copy)]
pub struct PMModule;

impl PMModule {
    pub fn new() -> Self {
        PMModule
    }
}

/// One single sign-on provider's settings.
#[derive(Debug, Clone)]
pub struct SSOProviderConfig {
    pub client_id: String,
    pub client_secret: String,
    pub issuer_url: String,
    pub redirect_uri: String,
    pub scopes: Option<Vec<String>>,
}

/// What a sign-on provider says of a user.
#[derive(Debug, Clone)]
pub struct UserInfo {
    pub sub: String,
    pub email: String,
    pub name: String,
}

/// The claims of an issued session token.
#[derive(Debug, Clone)]
pub struct JWTClaims {
    pub sub: String,
    pub email: String,
    pub name: String,
    pub provider: String,
    pub iat: i64,
    pub exp: i64,
}

/// The state of a sign-on in progress.
#[derive(Debug, Clone)]
pub struct AuthSession {
    pub csrf_token: String,
    pub nonce: String,
    pub provider_id: String,
    pub redirect_uri: String,
}

/// Why a request could not be authenticated.
#[derive(Debug, Clone)]
pub enum AuthError {
    TokenMissing,
    TokenInvalid,
    TokenExpired,
    UserNotFound,
    DatabaseError(String),
}

/// An authentication failure's description.
pub open spec fn auth_error_text(e: AuthError) -> Seq<char> {
    match e {
        AuthError::TokenMissing => "Authentication token is missing"@,
        AuthError::TokenInvalid => "Authentication token is invalid"@,
        AuthError::TokenExpired => "Authentication token has expired"@,
        AuthError::UserNotFound => "User not found"@,
        AuthError::DatabaseError(m) => "Database error: "@ + m@,
    }
}

impl AuthError {
    /// The failure described for people.
    pub fn describe(&self) -> (r: String)
        ensures
            r@ == auth_error_text(*self),
    {
        match self {
            AuthError::TokenMissing => String::from_str("Authentication token is missing"),
            AuthError::TokenInvalid => String::from_str("Authentication token is invalid"),
            AuthError::TokenExpired => String::from_str("Authentication token has expired"),
            AuthError::UserNotFound => String::from_str("User not found"),
            AuthError::DatabaseError(m) => crate::text::joined("Database error: ", m.as_str()),
        }
    }
}

/// The result of a reindexing run.
#[derive(Debug, Clone)]
pub struct ReindexResponse {
    pub success: bool,
    pub message: String,
    pub topics_processed: i32,
    pub posts_processed: i32,
    pub errors: i32,
}

/// Counts of what the stores hold.
#[derive(Debug, Clone, Copy)]
pub struct AdminStatsResponse {
    pub database_topics: i64,
    pub database_posts: i64,
    pub meilisearch_documents: Option<i64>,
}

/// Whether a session token is valid, and whose it is.
#[derive(Debug, Clone)]
pub struct TokenValidationResponse {
    pub valid: bool,
    pub user: Option<UserInfo>,
    pub expires_at: Option<i64>,
}

/// The sign-on providers on offer.
#[derive(Debug, Clone)]
pub struct SSOProvidersResponse {
    pub providers: Vec<String>,
}

/// Where to send the user to sign on.
#[derive(Debug, Clone)]
pub struct LoginResponse {
    pub redirect_url: String,
}

/// A signed-on user's profile.
#[derive(Debug, Clone)]
pub struct UserProfileResponse {
    pub user_id: String,
    pub email: String,
    pub display_name: Option<String>,
    pub avatar_url: Option<String>,
    pub created_at: String,
    pub provider: String,
    pub expires_at: i64,
    pub token_expiring_soon: bool,
}

/// Where the database is.
#[derive(Debug, Clone)]
pub struct DatabaseConfig {
    pub url: String,
}

/// The groups that the HTTP operations are filed under.
#[derive(Debug, Clone, Copy, PartialEq, Eq, Structural)]
pub enum ApiTags {
    Topic,
    User,
    Events,
    Workshop,
}

} // verus!
