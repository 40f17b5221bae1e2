//! Suspension propagation: the sequence of calls that suspends or deletes an
//! account on one platform, or everywhere.
use vstd::prelude::*;
use vstd::string::*;

verus! {

/// What a call asks the remote service to do with the account.
#[derive(Debug, Clone, Copy, PartialEq, Eq, Structural)]
pub enum Command {
    Suspend,
    Delete,
}

/// Where an action applies: everywhere, or on one named platform.
pub enum Target {
    All,
    Only(String),
}

/// The service a call goes to.
pub enum Endpoint {
    /// The identity service.
    Identity,
    /// A configured federated service, by base URL.
    Service(String),
    /// A named federated platform.
    Platform(String),
}

/// One remote call: a command about one account, sent to one service.
pub struct Call {
    pub endpoint: Endpoint,
    pub command: Command,
    pub subject: String,
}

pub enum TargetView {
    All,
    Only(Seq<char>),
}

pub enum EndpointView {
    Identity,
    Service(Seq<char>),
    Platform(Seq<char>),
}

pub struct CallView {
    pub endpoint: EndpointView,
    pub command: Command,
    pub subject: Seq<char>,
}

impl View for Target {
    type V = TargetView;

    open spec fn view(&self) -> TargetView {
        match self {
            Target::All => TargetView::All,
            Target::Only(p) => TargetView::Only(p@),
        }
    }
}

impl View for Endpoint {
    type V = EndpointView;

    open spec fn view(&self) -> EndpointView {
        match self {
            Endpoint::Identity => EndpointView::Identity,
            Endpoint::Service(u) => EndpointView::Service(u@),
            Endpoint::Platform(p) => EndpointView::Platform(p@),
        }
    }
}

impl View for Call {
    type V = CallView;

    open spec fn view(&self) -> CallView {
        CallView { endpoint: self.endpoint@, command: self.command, subject: self.subject@ }
    }
}

/// The strings of a list, as sequences of characters.
pub open spec fn strings_view(v: Seq<String>) -> Seq<Seq<char>> {
    v.map_values(|s: String| s@)
}

/// The calls of a list, as their views.
pub open spec fn calls_view(v: Seq<Call>) -> Seq<CallView> {
    v.map_values(|c: Call| c@)
}

/// One call per configured service, in the configured order.
pub open spec fn service_calls(services: Seq<Seq<char>>, command: Command, subject: Seq<char>) -> Seq<
    CallView,
> {
    services.map_values(
        |u: Seq<char>| CallView { endpoint: EndpointView::Service(u), command, subject },
    )
}

/// The calls that carry `command` about `subject` to `target`: on one
/// platform, a single call to it; everywhere, a call to the identity service
/// followed by one to each configured service.
pub open spec fn plan_spec(
    subject: Seq<char>,
    target: TargetView,
    services: Seq<Seq<char>>,
    command: Command,
) -> Seq<CallView> {
    match target {
        TargetView::All => seq![
            CallView { endpoint: EndpointView::Identity, command, subject },
        ] + service_calls(services, command, subject),
        TargetView::Only(p) => seq![
            CallView { endpoint: EndpointView::Platform(p), command, subject },
        ],
    }
}

/// Appends to `out` the calls that carry `command` about `subject` to `target`.
pub fn append_plan(
    out: &mut Vec<Call>,
    subject: &String,
    target: &Target,
    services: &Vec<String>,
    command: Command,
)
    ensures
        calls_view(final(out)@) == calls_view(old(out)@) + plan_spec(
            subject@,
            target@,
            strings_view(services@),
            command,
        ),
{
    let ghost start = calls_view(out@);
    match target {
        Target::Only(p) => {
            out.push(
                Call { endpoint: Endpoint::Platform(p.clone()), command, subject: subject.clone() },
            );
            assert(calls_view(out@) =~= start + plan_spec(
                subject@,
                target@,
                strings_view(services@),
                command,
            ));
        },
        Target::All => {
            out.push(Call { endpoint: Endpoint::Identity, command, subject: subject.clone() });
            let ghost head = seq![
                CallView { endpoint: EndpointView::Identity, command, subject: subject@ },
            ];
            assert(calls_view(out@) =~= start + head + service_calls(
                strings_view(services@).subrange(0, 0),
                command,
                subject@,
            ));
            let mut i: usize = 0;
            while i < services.len()
                invariant
                    i <= services@.len(),
                    calls_view(out@) == start + head + service_calls(
                        strings_view(services@).subrange(0, i as int),
                        command,
                        subject@,
                    ),
                decreases services@.len() - i,
            {
                let ghost before = calls_view(out@);
                out.push(
                    Call {
                        endpoint: Endpoint::Service(services[i].clone()),
                        command,
                        subject: subject.clone(),
                    },
                );
                assert(strings_view(services@).subrange(0, i + 1) =~= strings_view(
                    services@,
                ).subrange(0, i as int).push(services@[i as int]@));
                assert(calls_view(out@) =~= before.push(out@[out@.len() - 1]@));
                assert(service_calls(
                    strings_view(services@).subrange(0, i + 1),
                    command,
                    subject@,
                ) =~= service_calls(
                    strings_view(services@).subrange(0, i as int),
                    command,
                    subject@,
                ).push(
                    CallView {
                        endpoint: EndpointView::Service(services@[i as int]@),
                        command,
                        subject: subject@,
                    },
                ));
                i = i + 1;
            }
            assert(strings_view(services@).subrange(0, i as int) =~= strings_view(services@));
            assert(calls_view(out@) =~= start + plan_spec(
                subject@,
                target@,
                strings_view(services@),
                command,
            ));
        },
    }
}

/// Address of a call: the identity service suspends under `/account/suspend`
/// and deletes under `/users/`; a configured service takes `/account/...`
/// after its base URL; a platform's base URL already ends with a slash.
pub open spec fn call_url_spec(
    call: CallView,
    identity_base: Seq<char>,
    platform_base: Seq<char>,
) -> Seq<char> {
    match (call.endpoint, call.command) {
        (EndpointView::Identity, Command::Suspend) => identity_base + "/account/suspend?vanity="@
            + call.subject,
        (EndpointView::Identity, Command::Delete) => identity_base + "/users/"@ + call.subject,
        (EndpointView::Service(u), Command::Suspend) => u + "/account/suspend?vanity="@
            + call.subject,
        (EndpointView::Service(u), Command::Delete) => u + "/account/deletion?vanity="@
            + call.subject,
        (EndpointView::Platform(_), Command::Suspend) => platform_base
            + "account/suspend?vanity="@ + call.subject,
        (EndpointView::Platform(_), Command::Delete) => platform_base
            + "account/deletion?vanity="@ + call.subject,
    }
}

/// Address to which `call` is sent, given the identity service's base URL and
/// the base URL of the platform the call names.
pub fn call_url(call: &Call, identity_base: &String, platform_base: &String) -> (r: String)
    ensures
        r@ == call_url_spec(call@, identity_base@, platform_base@),
{
    let mut url = match &call.endpoint {
        Endpoint::Identity => identity_base.clone(),
        Endpoint::Service(u) => u.clone(),
        Endpoint::Platform(_) => platform_base.clone(),
    };
    match (&call.endpoint, call.command) {
        (Endpoint::Identity, Command::Delete) => url.append("/users/"),
        (Endpoint::Platform(_), Command::Suspend) => url.append("account/suspend?vanity="),
        (Endpoint::Platform(_), Command::Delete) => url.append("account/deletion?vanity="),
        (_, Command::Suspend) => url.append("/account/suspend?vanity="),
        (_, Command::Delete) => url.append("/account/deletion?vanity="),
    }
    url.append(call.subject.as_str());
    url
}

/// The calls that carry `command` about `subject` to `target`, in the order in
/// which they are to be made.
pub fn propagation_calls(
    subject: &String,
    target: &Target,
    services: &Vec<String>,
    command: Command,
) -> (r: Vec<Call>)
    ensures
        calls_view(r@) == plan_spec(subject@, target@, strings_view(services@), command),
{
    let mut out: Vec<Call> = Vec::new();
    append_plan(&mut out, subject, target, services, command);
    assert(calls_view(Seq::<Call>::empty()) =~= Seq::<CallView>::empty());
    assert(Seq::<CallView>::empty() + plan_spec(subject@, target@, strings_view(services@), command)
        =~= plan_spec(subject@, target@, strings_view(services@), command));
    out
}

} // verus!
