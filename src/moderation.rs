//! Direct suspensions requested by moderators.
use vstd::prelude::*;
use vstd::string::*;
use crate::model::Suspend;
use crate::platform::{lower_of, lowercase, resolve_target, target_spec};
use crate::propagate::{
    calls_view, plan_spec, propagation_calls, strings_view, Call, Command, Target, TargetView,
};
use crate::rejection::{Rejection, SelfAction};
use crate::report::{admit_spec, screen_spec, Notice, QueryView, SubjectLookup};
use crate::model::GravitaliaPost;

verus! {

/// Capability bit that allows a caller to suspend accounts.
pub const SUSPEND_CAPABILITY: u32 = 32;

/// Kind of a moderator's sanction.
#[derive(Debug, Clone, Copy, PartialEq, Eq, Structural)]
pub enum PunishmentKind {
    Suspend,
}

/// Audit record of a moderator's sanction.
pub struct Punishment {
    pub subject: String,
    pub moderator: String,
    pub platform: String,
    pub kind: PunishmentKind,
    pub day: u64,
}

/// What an authorized suspension leads to: the audit record, the calls that
/// apply it, and the notice.
pub struct ModeratorOutcome {
    pub punishment: Punishment,
    pub calls: Vec<Call>,
    pub notice: Notice,
}

/// Authorization: a caller without the capability bit is refused first, then
/// a caller suspending themselves, then an unknown platform.
pub open spec fn authorize_spec(
    actor: Seq<char>,
    flags: u32,
    subject: Seq<char>,
    platform: Seq<char>,
) -> Result<TargetView, Rejection> {
    if flags & 32 == 0 {
        Err(Rejection::PermissionDenied)
    } else if subject == actor {
        Err(Rejection::SelfActionDenied(SelfAction::Suspend))
    } else if target_spec(lower_of(platform)).is_none() {
        Err(Rejection::InvalidPlatform)
    } else {
        Ok(target_spec(lower_of(platform)).unwrap())
    }
}

/// Decides whether `actor`, whose capability bits are `flags`, may suspend
/// the account that `request` names, and where.
pub fn authorize_suspend(actor: &String, flags: u32, request: &Suspend) -> (r: Result<
    Target,
    Rejection,
>)
    ensures
        match r {
            Ok(t) => authorize_spec(actor@, flags, request.vanity@, request.platform@) == Ok::<
                TargetView,
                Rejection,
            >(t@),
            Err(e) => authorize_spec(actor@, flags, request.vanity@, request.platform@) == Err::<
                TargetView,
                Rejection,
            >(e),
        },
        flags & 32 == 0 ==> r == Err::<Target, Rejection>(Rejection::PermissionDenied),
        flags & 32 != 0 && request.vanity@ == actor@ ==> r == Err::<Target, Rejection>(
            Rejection::SelfActionDenied(SelfAction::Suspend),
        ),
{
    if flags & SUSPEND_CAPABILITY == 0 {
        return Err(Rejection::PermissionDenied);
    }
    if request.vanity == *actor {
        return Err(Rejection::SelfActionDenied(SelfAction::Suspend));
    }
    match resolve_target(&request.platform) {
        Some(t) => Ok(t),
        None => Err(Rejection::InvalidPlatform),
    }
}

/// What an authorized suspension by `actor` (known to the identity service as
/// `moderator`) of the account that `request` names leads to, on `today`.
pub fn moderator_outcome(
    request: &Suspend,
    actor: &String,
    moderator: &String,
    target: &Target,
    services: &Vec<String>,
    today: u64,
) -> (r: ModeratorOutcome)
    ensures
        r.punishment.subject@ == request.vanity@,
        r.punishment.moderator@ == moderator@,
        r.punishment.platform@ == request.platform@,
        r.punishment.kind == PunishmentKind::Suspend,
        r.punishment.day == today,
        calls_view(r.calls@) == plan_spec(
            request.vanity@,
            target@,
            strings_view(services@),
            Command::Suspend,
        ),
        r.notice.actor@ == actor@,
        r.notice.platform@ == lower_of(request.platform@),
        r.notice.subject@ == request.vanity@,
        r.notice.reason@ == "/"@,
        r.notice.action@ == "Suspended account by "@ + actor@,
        !r.notice.mention,
{
    let punishment = Punishment {
        subject: request.vanity.clone(),
        moderator: moderator.clone(),
        platform: request.platform.clone(),
        kind: PunishmentKind::Suspend,
        day: today,
    };
    let calls = propagation_calls(&request.vanity, target, services, Command::Suspend);
    let mut action = String::from_str("Suspended account by ");
    action.append(actor.as_str());
    let notice = Notice {
        actor: actor.clone(),
        platform: lowercase(&request.platform),
        subject: request.vanity.clone(),
        reason: String::from_str("/"),
        action,
        mention: false,
    };
    ModeratorOutcome { punishment, calls, notice }
}

/// Acting against oneself is always refused: a report on one's own account
/// whatever the cache, platform or subject shape; a report on one's own post
/// whatever the reason code; a suspension of oneself by a moderator whatever
/// the platform.
pub proof fn lemma_self_action_refused(
    actor: Seq<char>,
    platform: Seq<char>,
    cache: Map<Seq<char>, (u16, u64)>,
    now: u64,
    post: GravitaliaPost,
    code: u8,
    flags: u32,
)
    ensures
        screen_spec(actor, platform, actor, cache, now) == Err::<QueryView, Rejection>(
            Rejection::SelfActionDenied(SelfAction::Report),
        ),
        post.author@ == actor ==> admit_spec(SubjectLookup::Post(Some(post)), actor, code) == Err::<
            (u32, Seq<char>),
            Rejection,
        >(Rejection::SelfActionDenied(SelfAction::ReportOwnContent)),
        flags & 32 != 0 ==> authorize_spec(actor, flags, actor, platform) == Err::<
            TargetView,
            Rejection,
        >(Rejection::SelfActionDenied(SelfAction::Suspend)),
{
}

} // verus!
