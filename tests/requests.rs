use signaly::auth::{actor_from, authenticate};
use signaly::limiter::{check_rate, rate_key, reserve, RateDecision};
use signaly::mem::{get, MemCache, RATE_LIMIT_TTL};
use signaly::model::{GravitaliaPost, GravitaliaUser, Signal, Suspend};
use signaly::moderation::{authorize_suspend, moderator_outcome, PunishmentKind};
use signaly::platform::{is_all_digits, marker_target, resolve_platform, resolve_target};
use signaly::propagate::{Command, Endpoint, Target};
use signaly::rejection::{ok_reply, Rejection, SelfAction, Status};
use signaly::report::{admit_subject, reason_text, screen_report, SubjectLookup, SubjectQuery};

fn signal(vanity: &str, platform: &str, reason: u8) -> Signal {
    Signal { vanity: vanity.to_string(), platform: platform.to_string(), reason }
}

fn user(followers: u32, suspended: bool) -> GravitaliaUser {
    GravitaliaUser { followers, following: 0, public: true, suspended, access_post: true }
}

fn post(author: &str, like: u32) -> GravitaliaPost {
    GravitaliaPost {
        id: "42".to_string(),
        hash: vec![],
        description: String::new(),
        text: String::new(),
        like,
        author: author.to_string(),
    }
}

#[test]
fn cache_entries_expire() {
    let mut cache = MemCache::new();
    let key = "k".to_string();
    assert_eq!(get(&cache, &key, 0), None);
    signaly::mem::set(&mut cache, key.clone(), 3, 100);
    assert_eq!(get(&cache, &key, 100), Some(3));
    assert_eq!(get(&cache, &key, 100 + RATE_LIMIT_TTL - 1), Some(3));
    assert_eq!(get(&cache, &key, 100 + RATE_LIMIT_TTL), None);
    signaly::mem::set(&mut cache, key.clone(), 7, 1000);
    assert_eq!(get(&cache, &key, 1000), Some(7));
    assert_eq!(get(&cache, &"other".to_string(), 1000), None);
}

#[test]
fn rate_key_format() {
    assert_eq!(rate_key(&"bob".to_string(), &"alice".to_string()), "signaly_bob_alice");
}

#[test]
fn second_report_in_window_is_rate_limited() {
    let mut cache = MemCache::new();
    let (subject, actor) = ("bob".to_string(), "alice".to_string());
    assert_eq!(check_rate(&cache, &subject, &actor, 1000), RateDecision::Allowed);
    reserve(&mut cache, &subject, &actor, 1000);
    assert_eq!(check_rate(&cache, &subject, &actor, 1000), RateDecision::RateLimited);
    assert_eq!(check_rate(&cache, &subject, &actor, 1299), RateDecision::RateLimited);
    let s = signal("bob", "gravitalia", 1);
    assert!(matches!(screen_report(&s, &actor, &cache, 1200), Err(Rejection::RateLimited)));
    // Another actor, or another subject, is not throttled.
    assert_eq!(check_rate(&cache, &subject, &"carol".to_string(), 1200), RateDecision::Allowed);
    assert_eq!(check_rate(&cache, &"dave".to_string(), &actor, 1200), RateDecision::Allowed);
    // After the window the pair may report again.
    assert_eq!(check_rate(&cache, &subject, &actor, 1300), RateDecision::Allowed);
    assert!(screen_report(&s, &actor, &cache, 1300).is_ok());
}

#[test]
fn self_report_rejected_first() {
    let mut cache = MemCache::new();
    let actor = "bob".to_string();
    reserve(&mut cache, &actor, &actor, 0);
    for s in [signal("bob", "gravitalia", 1), signal("bob", "nowhere", 99)] {
        assert!(matches!(
            screen_report(&s, &actor, &cache, 10),
            Err(Rejection::SelfActionDenied(SelfAction::Report))
        ));
    }
}

#[test]
fn self_content_report_rejected() {
    let s = signal("12345", "gravitalia", 200);
    let lookup = SubjectLookup::Post(Some(post("alice", 3)));
    assert!(matches!(
        admit_subject(&s, &"alice".to_string(), &lookup),
        Err(Rejection::SelfActionDenied(SelfAction::ReportOwnContent))
    ));
}

#[test]
fn screening_routes_posts_and_profiles() {
    let cache = MemCache::new();
    let actor = "alice".to_string();
    match screen_report(&signal("12345", "Gravitalia", 1), &actor, &cache, 0) {
        Ok(s) => {
            assert_eq!(s.platform, "gravitalia");
            assert!(matches!(s.query, SubjectQuery::Post(ref id) if id == "12345"));
        },
        Err(_) => panic!("a post report on a supported platform passes screening"),
    }
    match screen_report(&signal("bob", "GRAVITALIA", 1), &actor, &cache, 0) {
        Ok(s) => assert!(matches!(s.query, SubjectQuery::Profile(ref v) if v == "bob")),
        Err(_) => panic!("an account report on a supported platform passes screening"),
    }
    assert!(matches!(
        screen_report(&signal("bob", "twitter", 1), &actor, &cache, 0),
        Err(Rejection::InvalidPlatform)
    ));
}

#[test]
fn admission_checks() {
    let actor = "alice".to_string();
    let s = signal("bob", "gravitalia", 4);
    assert!(matches!(
        admit_subject(&s, &actor, &SubjectLookup::Profile(None)),
        Err(Rejection::UnknownOrSuspendedSubject)
    ));
    assert!(matches!(
        admit_subject(&s, &actor, &SubjectLookup::Post(None)),
        Err(Rejection::UnknownOrSuspendedSubject)
    ));
    assert!(matches!(
        admit_subject(&s, &actor, &SubjectLookup::Profile(Some(user(5, true)))),
        Err(Rejection::UnknownOrSuspendedSubject)
    ));
    assert!(matches!(
        admit_subject(&signal("bob", "gravitalia", 9), &actor, &SubjectLookup::Profile(Some(user(5, false)))),
        Err(Rejection::InvalidReason)
    ));
    let a = admit_subject(&s, &actor, &SubjectLookup::Profile(Some(user(5, false)))).ok().unwrap();
    assert_eq!(a.followers, 5);
    assert_eq!(a.reason, "NSFW content");
    let p = admit_subject(&signal("77", "gravitalia", 0), &actor, &SubjectLookup::Post(Some(post("carol", 12))))
        .ok()
        .unwrap();
    assert_eq!(p.followers, 12);
    assert_eq!(p.reason, "Other");
}

#[test]
fn reason_texts() {
    assert_eq!(reason_text(0).unwrap(), "Other");
    assert_eq!(reason_text(1).unwrap(), "Violence, abuse or criminal content");
    assert_eq!(reason_text(2).unwrap(), "Hate and harassement");
    assert_eq!(reason_text(3).unwrap(), "Suicide or self-harm");
    assert_eq!(reason_text(5).unwrap(), "Misinformation");
    assert_eq!(reason_text(6).unwrap(), "Dangerous content");
    assert_eq!(reason_text(7).unwrap(), "Personal data leak");
    assert_eq!(reason_text(8).unwrap(), "Copyright/intellectual property violation");
    assert!(reason_text(9).is_none());
    assert!(reason_text(255).is_none());
}

#[test]
fn platform_names_ignore_case() {
    assert_eq!(resolve_platform(&"GrAvItAlIa".to_string()).unwrap(), "gravitalia");
    assert!(resolve_platform(&"all".to_string()).is_none());
    assert!(matches!(resolve_target(&"ALL".to_string()), Some(Target::All)));
    assert!(matches!(resolve_target(&"Gravitalia".to_string()), Some(Target::Only(ref p)) if p == "gravitalia"));
    assert!(resolve_target(&"mastodon".to_string()).is_none());
    assert!(matches!(marker_target(&"all".to_string()), Target::All));
    assert!(matches!(marker_target(&"gravitalia".to_string()), Target::Only(ref p) if p == "gravitalia"));
}

#[test]
fn digit_subjects() {
    assert!(is_all_digits(&"0123456789".to_string()));
    assert!(is_all_digits(&String::new()));
    assert!(!is_all_digits(&"12a".to_string()));
    assert!(!is_all_digits(&"１２".to_string()));
}

#[test]
fn moderator_without_capability_is_denied() {
    let req = Suspend { vanity: "bob".to_string(), platform: "gravitalia".to_string() };
    let actor = "alice".to_string();
    assert!(matches!(authorize_suspend(&actor, 0, &req), Err(Rejection::PermissionDenied)));
    assert!(matches!(authorize_suspend(&actor, 31, &req), Err(Rejection::PermissionDenied)));
    assert!(matches!(authorize_suspend(&actor, 64, &req), Err(Rejection::PermissionDenied)));
    // Without the capability even a self-suspension is refused for the capability.
    assert!(matches!(authorize_suspend(&"bob".to_string(), 0, &req), Err(Rejection::PermissionDenied)));
}

#[test]
fn moderator_cannot_suspend_self() {
    let req = Suspend { vanity: "alice".to_string(), platform: "all".to_string() };
    assert!(matches!(
        authorize_suspend(&"alice".to_string(), 32, &req),
        Err(Rejection::SelfActionDenied(SelfAction::Suspend))
    ));
}

#[test]
fn moderator_targets() {
    let actor = "alice".to_string();
    let bad = Suspend { vanity: "bob".to_string(), platform: "elsewhere".to_string() };
    assert!(matches!(authorize_suspend(&actor, 32 | 1, &bad), Err(Rejection::InvalidPlatform)));
    let all = Suspend { vanity: "bob".to_string(), platform: "All".to_string() };
    let target = authorize_suspend(&actor, 32, &all).ok().unwrap();
    assert!(matches!(target, Target::All));
    let services = vec!["https://a.example".to_string(), "https://b.example".to_string()];
    let out = moderator_outcome(&all, &actor, &"alice_mod".to_string(), &target, &services, 19500);
    assert_eq!(out.punishment.subject, "bob");
    assert_eq!(out.punishment.moderator, "alice_mod");
    assert_eq!(out.punishment.platform, "All");
    assert_eq!(out.punishment.kind, PunishmentKind::Suspend);
    assert_eq!(out.punishment.day, 19500);
    assert_eq!(out.calls.len(), 3);
    assert!(matches!(out.calls[0].endpoint, Endpoint::Identity));
    assert!(matches!(&out.calls[1].endpoint, Endpoint::Service(u) if u == "https://a.example"));
    assert!(matches!(&out.calls[2].endpoint, Endpoint::Service(u) if u == "https://b.example"));
    assert!(out.calls.iter().all(|c| c.command == Command::Suspend && c.subject == "bob"));
    assert_eq!(out.notice.action, "Suspended account by alice");
    assert_eq!(out.notice.platform, "all");
    assert_eq!(out.notice.reason, "/");
    assert!(!out.notice.mention);
}

#[test]
fn rejection_messages_and_status() {
    assert_eq!(Rejection::AuthInvalid.message(), "Invalid token");
    assert_eq!(Rejection::RateLimited.message(), "Too many requests");
    assert_eq!(Rejection::RateLimited.status(), Status::TooManyRequests);
    assert_eq!(Rejection::InvalidPlatform.status(), Status::BadRequest);
    assert_eq!(Rejection::StoreFailure.status(), Status::InternalError);
    assert_eq!(Rejection::CollaboratorFailure.status(), Status::InternalError);
    assert_eq!(Rejection::CollaboratorFailure.message(), "Internal server error");
    assert_eq!(Rejection::InvalidReason.message(), "Invalid reason");
    assert_eq!(Rejection::SelfActionDenied(SelfAction::Report).message(), "You can't report yourself");
    assert_eq!(Rejection::SelfActionDenied(SelfAction::ReportOwnContent).message(), "You can't report your own post");
    assert_eq!(Rejection::SelfActionDenied(SelfAction::Suspend).message(), "You can't suspend yourself");
    assert_eq!(Rejection::PermissionDenied.message(), "You haven't enough flags to perform this action");
    let r = Rejection::UnknownOrSuspendedSubject.reply();
    assert!(r.error);
    assert_eq!(r.message, "Invalid user");
    let ok = ok_reply();
    assert!(!ok.error);
    assert_eq!(ok.message, "OK");
}

#[test]
fn unverifiable_tokens_are_invalid() {
    assert!(matches!(
        authenticate(&"not.a.token".to_string(), &b"no key here".to_vec()),
        Err(Rejection::AuthInvalid)
    ));
    assert!(matches!(authenticate(&String::new(), &Vec::new()), Err(Rejection::AuthInvalid)));
    assert!(matches!(actor_from(None), Err(Rejection::AuthInvalid)));
    assert_eq!(actor_from(Some("alice".to_string())).ok().unwrap(), "alice");
}
