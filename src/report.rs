//! The report decision engine. A report passes through screening (self-report,
//! rate limit, platform), admission (subject lookup, own-content check, reason)
//! and, once persisted and counted, the choice of an escalation tier and of
//! what that tier does.
use vstd::prelude::*;
use vstd::string::*;
use crate::limiter::is_rate_limited;
use crate::mem::MemCache;
use crate::model::{GravitaliaPost, GravitaliaUser, Signal};
use crate::platform::{
    all_digits, gravitalia, is_all_digits, lower_of, platform_spec, resolve_platform,
};
use crate::propagate::{
    calls_view, plan_spec, propagation_calls, strings_view, Call, Command, Target,
    TargetView,
};
use crate::rejection::{Rejection, SelfAction};
use crate::scorer::{required_reports, required_spec, ESCALATE_MULTIPLIER, SUSPEND_MULTIPLIER};

verus! {

/// Days an automatic suspension lasts.
pub const SUSPENSION_DAYS: u64 = 30;

/// How the reported subject is looked up: as a post, by its numeric id, or as
/// an account, by its name.
pub enum SubjectQuery {
    Post(String),
    Profile(String),
}

pub enum QueryView {
    Post(Seq<char>),
    Profile(Seq<char>),
}

impl View for SubjectQuery {
    type V = QueryView;

    open spec fn view(&self) -> QueryView {
        match self {
            SubjectQuery::Post(id) => QueryView::Post(id@),
            SubjectQuery::Profile(name) => QueryView::Profile(name@),
        }
    }
}

/// A report that passed screening: its platform, and how to look its subject up.
pub struct Screened {
    pub platform: String,
    pub query: SubjectQuery,
}

/// What the platform returned for the subject's lookup; `None` when the
/// subject could not be found.
pub enum SubjectLookup {
    Profile(Option<GravitaliaUser>),
    Post(Option<GravitaliaPost>),
}

/// A report that passed admission: the subject's audience and the reason's text.
pub struct Admission {
    pub followers: u32,
    pub reason: String,
}

/// Escalation tier of a report.
#[derive(Debug, Clone, Copy, PartialEq, Eq, Structural)]
pub enum Tier {
    /// Suspend the subject and ask support to confirm it is no false positive.
    Suspend,
    /// Alert support, without acting on the subject.
    Escalate,
    /// Only record the report.
    Log,
}

/// A time-boxed suspension: the subject, the platform marker (a platform
/// name, or `all`) and the day (counted from the epoch) on which it ends.
pub struct Suspension {
    pub subject: String,
    pub platform: String,
    pub expire_day: u64,
}

/// What the notifier is told of a report or sanction.
pub struct Notice {
    pub actor: String,
    pub platform: String,
    pub subject: String,
    pub reason: String,
    pub action: String,
    pub mention: bool,
}

/// What a persisted report leads to: a suspension to record, the calls that
/// apply it, and the notice.
pub struct ReportOutcome {
    pub suspension: Option<Suspension>,
    pub calls: Vec<Call>,
    pub notice: Notice,
}

/// Text of each known reason code.
pub open spec fn reason_spec(code: u8) -> Option<Seq<char>> {
    if code == 0 {
        Some("Other"@)
    } else if code == 1 {
        Some("Violence, abuse or criminal content"@)
    } else if code == 2 {
        Some("Hate and harassement"@)
    } else if code == 3 {
        Some("Suicide or self-harm"@)
    } else if code == 4 {
        Some("NSFW content"@)
    } else if code == 5 {
        Some("Misinformation"@)
    } else if code == 6 {
        Some("Dangerous content"@)
    } else if code == 7 {
        Some("Personal data leak"@)
    } else if code == 8 {
        Some("Copyright/intellectual property violation"@)
    } else {
        None
    }
}

/// Screening: a self-report is refused first, then a throttled pair, then an
/// unsupported platform; a subject made of digits is a post, any other an account.
pub open spec fn screen_spec(
    subject: Seq<char>,
    platform: Seq<char>,
    actor: Seq<char>,
    cache: Map<Seq<char>, (u16, u64)>,
    now: u64,
) -> Result<QueryView, Rejection> {
    if subject == actor {
        Err(Rejection::SelfActionDenied(SelfAction::Report))
    } else if is_rate_limited(cache, subject, actor, now) {
        Err(Rejection::RateLimited)
    } else if platform_spec(lower_of(platform)).is_none() {
        Err(Rejection::InvalidPlatform)
    } else if all_digits(subject) {
        Ok(QueryView::Post(subject))
    } else {
        Ok(QueryView::Profile(subject))
    }
}

/// Admission: an unknown or suspended subject is refused, then a report on
/// the actor's own post, then an unknown reason. The audience is the
/// account's followers, or the post's likes.
pub open spec fn admit_spec(lookup: SubjectLookup, actor: Seq<char>, code: u8) -> Result<
    (u32, Seq<char>),
    Rejection,
> {
    match lookup {
        SubjectLookup::Profile(None) => Err(Rejection::UnknownOrSuspendedSubject),
        SubjectLookup::Post(None) => Err(Rejection::UnknownOrSuspendedSubject),
        SubjectLookup::Profile(Some(u)) => if u.suspended {
            Err(Rejection::UnknownOrSuspendedSubject)
        } else if reason_spec(code).is_none() {
            Err(Rejection::InvalidReason)
        } else {
            Ok((u.followers, reason_spec(code).unwrap()))
        },
        SubjectLookup::Post(Some(p)) => if p.author@ == actor {
            Err(Rejection::SelfActionDenied(SelfAction::ReportOwnContent))
        } else if reason_spec(code).is_none() {
            Err(Rejection::InvalidReason)
        } else {
            Ok((p.like, reason_spec(code).unwrap()))
        },
    }
}

/// The tier of a subject with `total` reports on record: above the suspend
/// threshold it is suspended, above the escalate threshold support is alerted.
pub open spec fn tier_spec(total: nat, followers: nat, growth_milli: nat) -> Tier {
    if total > required_spec(followers, 10, growth_milli) {
        Tier::Suspend
    } else if total > required_spec(followers, 2, growth_milli) {
        Tier::Escalate
    } else {
        Tier::Log
    }
}

/// The action text of each tier.
pub open spec fn action_spec(tier: Tier) -> Seq<char> {
    match tier {
        Tier::Suspend => "Suspended account, check if it is a false-positive"@,
        Tier::Escalate => "Alerting support: too many reports"@,
        Tier::Log => "/"@,
    }
}

/// Whether the notice of a tier mentions the support team.
pub open spec fn mention_spec(tier: Tier) -> bool {
    tier != Tier::Log
}

/// The unsigned integer that `b` encodes, most significant byte first.
pub open spec fn be_value(b: Seq<u8>) -> nat
    decreases b.len(),
{
    if b.len() == 0 {
        0
    } else {
        (be_value(b.drop_last()) * 256 + b.last()) as nat
    }
}

/// The report count that the store returned as a big-endian integer of any
/// width, saturated at `u32::MAX`.
pub fn report_count(bytes: &Vec<u8>) -> (r: u32)
    ensures
        be_value(bytes@) <= u32::MAX ==> r == be_value(bytes@),
        be_value(bytes@) > u32::MAX ==> r == u32::MAX,
{
    let mut acc: u32 = 0;
    let mut i: usize = 0;
    assert(bytes@.subrange(0, 0) =~= Seq::<u8>::empty());
    while i < bytes.len()
        invariant
            i <= bytes@.len(),
            be_value(bytes@.subrange(0, i as int)) <= u32::MAX ==> acc == be_value(
                bytes@.subrange(0, i as int),
            ),
            be_value(bytes@.subrange(0, i as int)) > u32::MAX ==> acc == u32::MAX,
        decreases bytes@.len() - i,
    {
        let ghost prev = be_value(bytes@.subrange(0, i as int));
        assert(bytes@.subrange(0, i + 1).drop_last() =~= bytes@.subrange(0, i as int));
        assert(be_value(bytes@.subrange(0, i + 1)) == prev * 256 + bytes@[i as int]);
        assert(prev * 256 + bytes@[i as int] >= prev) by (nonlinear_arith)
            requires
                prev >= 0,
        ;
        let next: u64 = acc as u64 * 256 + bytes[i] as u64;
        if next > u32::MAX as u64 {
            acc = u32::MAX;
        } else {
            acc = next as u32;
        }
        i = i + 1;
    }
    assert(bytes@.subrange(0, i as int) =~= bytes@);
    acc
}

/// Public address of a subject: a post's page for a numeric identifier, an
/// account's page otherwise.
pub open spec fn subject_link_spec(subject: Seq<char>) -> Seq<char> {
    if all_digits(subject) {
        "https://www.gravitalia.com/p/"@ + subject
    } else {
        "https://www.gravitalia.com/"@ + subject
    }
}

/// Public address of `subject`.
pub fn subject_link(subject: &String) -> (r: String)
    ensures
        r@ == subject_link_spec(subject@),
{
    let mut link = if is_all_digits(subject) {
        String::from_str("https://www.gravitalia.com/p/")
    } else {
        String::from_str("https://www.gravitalia.com/")
    };
    link.append(subject.as_str());
    link
}

/// Text of a reason code, if the code is known.
pub fn reason_text(code: u8) -> (r: Option<String>)
    ensures
        r.is_some() == reason_spec(code).is_some(),
        r.is_some() ==> Some(r.unwrap()@) == reason_spec(code),
{
    if code == 0 {
        Some(String::from_str("Other"))
    } else if code == 1 {
        Some(String::from_str("Violence, abuse or criminal content"))
    } else if code == 2 {
        Some(String::from_str("Hate and harassement"))
    } else if code == 3 {
        Some(String::from_str("Suicide or self-harm"))
    } else if code == 4 {
        Some(String::from_str("NSFW content"))
    } else if code == 5 {
        Some(String::from_str("Misinformation"))
    } else if code == 6 {
        Some(String::from_str("Dangerous content"))
    } else if code == 7 {
        Some(String::from_str("Personal data leak"))
    } else if code == 8 {
        Some(String::from_str("Copyright/intellectual property violation"))
    } else {
        None
    }
}

/// Screens a report by `actor` at instant `now` before anything is looked up.
pub fn screen_report(signal: &Signal, actor: &String, cache: &MemCache, now: u64) -> (r: Result<
    Screened,
    Rejection,
>)
    requires
        cache.wf(),
    ensures
        match r {
            Ok(s) => screen_spec(signal.vanity@, signal.platform@, actor@, cache@, now) == Ok::<
                QueryView,
                Rejection,
            >(s.query@) && s.platform@ == gravitalia(),
            Err(e) => screen_spec(signal.vanity@, signal.platform@, actor@, cache@, now) == Err::<
                QueryView,
                Rejection,
            >(e),
        },
{
    if signal.vanity == *actor {
        return Err(Rejection::SelfActionDenied(SelfAction::Report));
    }
    match crate::limiter::check_rate(cache, &signal.vanity, actor, now) {
        crate::limiter::RateDecision::RateLimited => {
            return Err(Rejection::RateLimited);
        },
        crate::limiter::RateDecision::Allowed => {},
    }
    let platform = match resolve_platform(&signal.platform) {
        Some(p) => p,
        None => {
            return Err(Rejection::InvalidPlatform);
        },
    };
    let query = if is_all_digits(&signal.vanity) {
        SubjectQuery::Post(signal.vanity.clone())
    } else {
        SubjectQuery::Profile(signal.vanity.clone())
    };
    Ok(Screened { platform, query })
}

/// Admits a screened report once its subject has been looked up.
pub fn admit_subject(signal: &Signal, actor: &String, lookup: &SubjectLookup) -> (r: Result<
    Admission,
    Rejection,
>)
    ensures
        match r {
            Ok(a) => admit_spec(*lookup, actor@, signal.reason) == Ok::<
                (u32, Seq<char>),
                Rejection,
            >((a.followers, a.reason@)),
            Err(e) => admit_spec(*lookup, actor@, signal.reason) == Err::<
                (u32, Seq<char>),
                Rejection,
            >(e),
        },
{
    let followers = match lookup {
        SubjectLookup::Profile(None) => {
            return Err(Rejection::UnknownOrSuspendedSubject);
        },
        SubjectLookup::Post(None) => {
            return Err(Rejection::UnknownOrSuspendedSubject);
        },
        SubjectLookup::Profile(Some(u)) => {
            if u.suspended {
                return Err(Rejection::UnknownOrSuspendedSubject);
            }
            u.followers
        },
        SubjectLookup::Post(Some(p)) => {
            if p.author == *actor {
                return Err(Rejection::SelfActionDenied(SelfAction::ReportOwnContent));
            }
            p.like
        },
    };
    match reason_text(signal.reason) {
        Some(reason) => Ok(Admission { followers, reason }),
        None => Err(Rejection::InvalidReason),
    }
}

/// The tier of a subject with `total` reports on record, `followers`
/// followers and growth-curve value `growth_milli`.
pub fn choose_tier(total: u32, followers: u32, growth_milli: u32) -> (r: Tier)
    ensures
        r == tier_spec(total as nat, followers as nat, growth_milli as nat),
{
    let suspend_threshold = required_reports(followers, SUSPEND_MULTIPLIER, growth_milli);
    let escalate_threshold = required_reports(followers, ESCALATE_MULTIPLIER, growth_milli);
    if total > suspend_threshold {
        Tier::Suspend
    } else if total > escalate_threshold {
        Tier::Escalate
    } else {
        Tier::Log
    }
}

/// What a persisted report of tier `tier` leads to. On the suspend tier: a
/// suspension of the subject on `platform` that ends `SUSPENSION_DAYS` after
/// `today`, and the call that suspends the account there.
pub fn report_outcome(
    tier: Tier,
    subject: &String,
    actor: &String,
    platform: &String,
    reason: &String,
    today: u64,
) -> (r: ReportOutcome)
    requires
        today + SUSPENSION_DAYS <= u64::MAX,
    ensures
        r.notice.actor@ == actor@,
        r.notice.platform@ == platform@,
        r.notice.subject@ == subject@,
        r.notice.reason@ == reason@,
        r.notice.action@ == action_spec(tier),
        r.notice.mention == mention_spec(tier),
        r.suspension.is_some() == (tier == Tier::Suspend),
        r.suspension.is_some() ==> r.suspension.unwrap().subject@ == subject@
            && r.suspension.unwrap().platform@ == platform@ && r.suspension.unwrap().expire_day
            == today + SUSPENSION_DAYS,
        tier == Tier::Suspend ==> calls_view(r.calls@) == plan_spec(
            subject@,
            TargetView::Only(platform@),
            Seq::empty(),
            Command::Suspend,
        ),
        tier != Tier::Suspend ==> r.calls@.len() == 0,
{
    let (action, mention) = match tier {
        Tier::Suspend => (
            String::from_str("Suspended account, check if it is a false-positive"),
            true,
        ),
        Tier::Escalate => (String::from_str("Alerting support: too many reports"), true),
        Tier::Log => (String::from_str("/"), false),
    };
    let notice = Notice {
        actor: actor.clone(),
        platform: platform.clone(),
        subject: subject.clone(),
        reason: reason.clone(),
        action,
        mention,
    };
    match tier {
        Tier::Suspend => {
            let suspension = Suspension {
                subject: subject.clone(),
                platform: platform.clone(),
                expire_day: today + SUSPENSION_DAYS,
            };
            let no_services: Vec<String> = Vec::new();
            let target = Target::Only(platform.clone());
            let calls = propagation_calls(subject, &target, &no_services, Command::Suspend);
            assert(strings_view(no_services@) =~= Seq::<Seq<char>>::empty());
            ReportOutcome { suspension: Some(suspension), calls, notice }
        },
        _ => ReportOutcome { suspension: None, calls: Vec::new(), notice },
    }
}

} // verus!
