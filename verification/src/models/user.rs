//! Users, their subscription, and what each tier entitles them to.

use vstd::prelude::*;

verus! {

/// What a user pays for.
#[derive(Debug, Clone, Copy, PartialEq, Eq, Structural)]
pub enum SubscriptionTier {
    Free,
    Plus,
    Pro,
}

impl Default for SubscriptionTier {
    fn default() -> (tier: Self)
        ensures
            tier == SubscriptionTier::Free,
    {
        SubscriptionTier::Free
    }
}

/// The state of a subscription.
#[derive(Debug, Clone, Copy, PartialEq, Eq, Structural)]
pub enum SubscriptionStatus {
    Active,
    Trialing,
    PastDue,
    Canceled,
    Inactive,
}

impl Default for SubscriptionStatus {
    fn default() -> (status: Self)
        ensures
            status == SubscriptionStatus::Inactive,
    {
        SubscriptionStatus::Inactive
    }
}

/// A user as the store holds one.
#[derive(Debug)]
pub struct User {
    pub id: u128,
    pub email: Option<String>,
    pub password_hash: Option<String>,
    pub name: String,
    pub avatar_url: Option<String>,
    pub is_guest: bool,
    pub guest_token: Option<u128>,
    pub is_demo: bool,
    pub demo_expires_at: Option<i64>,
    pub demo_insight_calls_used: i32,
    pub timezone: String,
    pub stripe_customer_id: Option<String>,
    pub subscription_tier: SubscriptionTier,
    pub subscription_status: SubscriptionStatus,
    pub created_at: i64,
    pub updated_at: i64,
}

/// A refresh token as the store holds it: the record that the ledger keeps.
pub type RefreshToken = crate::auth::ledger::RefreshRecord;

/// How many reminders a tier allows.
#[derive(Debug, Clone, Copy, PartialEq, Eq, Structural)]
pub enum RemindersEntitlement {
    /// No reminders at all.
    Off,
    Limited(i32),
    Unlimited,
}

/// What a tier entitles its users to. No limit is written as `None`, except
/// for the weekly insights of the free tier, which has none at all.
#[derive(Debug)]
pub struct UserEntitlements {
    pub max_habits: Option<i64>,
    pub schedule_types: Vec<String>,
    pub analytics_days: i32,
    pub heatmap_months: i32,
    pub ai_insights_per_week: Option<i32>,
    pub reminders: RemindersEntitlement,
    pub data_export: bool,
}

/// What a user sees of their own account.
#[derive(Debug)]
pub struct UserProfile {
    pub id: u128,
    pub email: Option<String>,
    pub name: String,
    pub avatar_url: Option<String>,
    pub is_guest: bool,
    pub is_demo: bool,
    pub demo_expires_at: Option<i64>,
    pub timezone: String,
    pub subscription_tier: SubscriptionTier,
    pub subscription_status: SubscriptionStatus,
    pub entitlements: UserEntitlements,
    pub created_at: i64,
}

/// Most habits a user of the tier may keep at a time, where there is a limit.
pub open spec fn max_habits_of(tier: SubscriptionTier) -> Option<i64> {
    match tier {
        SubscriptionTier::Free => Some(3),
        SubscriptionTier::Plus => Some(15),
        SubscriptionTier::Pro => None,
    }
}

/// The schedule kinds open to a tier.
pub open spec fn schedule_types_of(tier: SubscriptionTier) -> Seq<Seq<char>> {
    match tier {
        SubscriptionTier::Free => seq!["daily"@],
        _ => seq!["daily"@, "weekly_days"@, "weekly_target"@],
    }
}

/// Days of analytics that a tier looks back.
pub open spec fn analytics_days_of(tier: SubscriptionTier) -> i32 {
    match tier {
        SubscriptionTier::Free => 7,
        SubscriptionTier::Plus => 30,
        SubscriptionTier::Pro => 365,
    }
}

/// Months of heatmap that a tier shows.
pub open spec fn heatmap_months_of(tier: SubscriptionTier) -> i32 {
    match tier {
        SubscriptionTier::Free => 1,
        SubscriptionTier::Plus => 6,
        SubscriptionTier::Pro => 12,
    }
}

/// Insights a week that a tier is limited to, where it is limited.
pub open spec fn ai_insights_per_week_of(tier: SubscriptionTier) -> Option<i32> {
    match tier {
        SubscriptionTier::Plus => Some(1),
        _ => None,
    }
}

/// Reminders that a tier allows.
pub open spec fn reminders_of(tier: SubscriptionTier) -> RemindersEntitlement {
    match tier {
        SubscriptionTier::Free => RemindersEntitlement::Limited(1),
        _ => RemindersEntitlement::Unlimited,
    }
}

/// The names of the schedule kinds in an entitlement.
pub open spec fn schedule_names(types: Seq<String>) -> Seq<Seq<char>> {
    Seq::new(types.len(), |i: int| types[i]@)
}

/// Whether entitlements are those of a tier.
pub open spec fn entitles(e: UserEntitlements, tier: SubscriptionTier) -> bool {
    &&& e.max_habits == max_habits_of(tier)
    &&& schedule_names(e.schedule_types@) == schedule_types_of(tier)
    &&& e.analytics_days == analytics_days_of(tier)
    &&& e.heatmap_months == heatmap_months_of(tier)
    &&& e.ai_insights_per_week == ai_insights_per_week_of(tier)
    &&& e.reminders == reminders_of(tier)
    &&& e.data_export == (tier == SubscriptionTier::Pro)
}

impl UserEntitlements {
    /// The entitlements of a tier.
    pub fn for_tier(tier: &SubscriptionTier) -> (e: Self)
        ensures
            entitles(e, *tier),
    {
        let mut schedule_types: Vec<String> = Vec::new();
        schedule_types.push("daily".to_owned());
        match tier {
            SubscriptionTier::Free => {
                assert(schedule_names(schedule_types@) =~= schedule_types_of(*tier));
                UserEntitlements {
                    max_habits: Some(3),
                    schedule_types,
                    analytics_days: 7,
                    heatmap_months: 1,
                    ai_insights_per_week: None,
                    reminders: RemindersEntitlement::Limited(1),
                    data_export: false,
                }
            },
            SubscriptionTier::Plus => {
                schedule_types.push("weekly_days".to_owned());
                schedule_types.push("weekly_target".to_owned());
                assert(schedule_names(schedule_types@) =~= schedule_types_of(*tier));
                UserEntitlements {
                    max_habits: Some(15),
                    schedule_types,
                    analytics_days: 30,
                    heatmap_months: 6,
                    ai_insights_per_week: Some(1),
                    reminders: RemindersEntitlement::Unlimited,
                    data_export: false,
                }
            },
            SubscriptionTier::Pro => {
                schedule_types.push("weekly_days".to_owned());
                schedule_types.push("weekly_target".to_owned());
                assert(schedule_names(schedule_types@) =~= schedule_types_of(*tier));
                UserEntitlements {
                    max_habits: None,
                    schedule_types,
                    analytics_days: 365,
                    heatmap_months: 12,
                    ai_insights_per_week: None,
                    reminders: RemindersEntitlement::Unlimited,
                    data_export: true,
                }
            },
        }
    }
}

impl UserProfile {
    /// The profile of a user: the account's own fields, with the
    /// entitlements of its tier. The password hash, the guest token and the
    /// payment customer stay behind.
    pub fn from_user(u: User) -> (profile: Self)
        ensures
            profile.id == u.id,
            profile.email == u.email,
            profile.name == u.name,
            profile.avatar_url == u.avatar_url,
            profile.is_guest == u.is_guest,
            profile.is_demo == u.is_demo,
            profile.demo_expires_at == u.demo_expires_at,
            profile.timezone == u.timezone,
            profile.subscription_tier == u.subscription_tier,
            profile.subscription_status == u.subscription_status,
            profile.created_at == u.created_at,
            entitles(profile.entitlements, u.subscription_tier),
    {
        let entitlements = UserEntitlements::for_tier(&u.subscription_tier);
        UserProfile {
            id: u.id,
            email: u.email,
            name: u.name,
            avatar_url: u.avatar_url,
            is_guest: u.is_guest,
            is_demo: u.is_demo,
            demo_expires_at: u.demo_expires_at,
            timezone: u.timezone,
            subscription_tier: u.subscription_tier,
            subscription_status: u.subscription_status,
            entitlements,
            created_at: u.created_at,
        }
    }
}

} // verus!
