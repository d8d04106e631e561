use vstd::prelude::*;
use crate::chat::{
    account_org, debug_org_from_account, known_org, no_org_message, org_resource_url, org_url,
    usage_org_from_account,
};
use crate::json::Json;

verus! {

broadcast use vstd::string::group_string_axioms;

/// Which fetch runs: the one behind the usage widget, or the one behind the
/// settings panel's debug view of the raw usage report.
#[derive(Clone, Copy, Debug, PartialEq, Eq)]
pub enum FetchMode {
    Widget,
    Debug,
}

/// What a usage fetch is waiting for.
pub enum UsageFetch {
    /// The organization UUID saved by the CLI.
    Start,
    /// The account document.
    Account,
    /// The subscription details of `org`.
    Subscription { org: String },
    /// The usage report of `org`.
    Usage { org: String, subscription: Option<Json> },
    /// Nothing: the fetch is over.
    Done,
}

/// What happened since the last step.
pub enum FetchEvent {
    /// The organization UUID the CLI saved, if any.
    CliOrg(Option<String>),
    /// The outcome of the last request.
    Reply(Result<Json, String>),
}

/// What to do next.
pub enum FetchAction {
    /// Request the document at this URL and report its outcome.
    Get(String),
    /// Stop with this error.
    Fail(String),
    /// Stop: the subscription details (when they came) and the usage report
    /// the widget's record is built from.
    Report { subscription: Option<Json>, usage: Json },
    /// Stop: the usage report the debug view shows.
    Show(Json),
}

/// The abstract state of a fetch.
pub enum StateView {
    Start,
    Account,
    Subscription(Seq<char>),
    Usage(Seq<char>, Option<Json>),
    Done,
}

/// The abstract event of a step.
pub enum EventView {
    CliOrg(Option<Seq<char>>),
    Reply(Result<Json, Seq<char>>),
}

/// The abstract action of a step.
pub enum ActionView {
    Get(Seq<char>),
    Fail(Seq<char>),
    Report(Option<Json>, Json),
    Show(Json),
}

pub open spec fn state_view(s: UsageFetch) -> StateView {
    match s {
        UsageFetch::Start => StateView::Start,
        UsageFetch::Account => StateView::Account,
        UsageFetch::Subscription { org } => StateView::Subscription(org@),
        UsageFetch::Usage { org, subscription } => StateView::Usage(org@, subscription),
        UsageFetch::Done => StateView::Done,
    }
}

pub open spec fn event_view(e: FetchEvent) -> EventView {
    match e {
        FetchEvent::CliOrg(Some(id)) => EventView::CliOrg(Some(id@)),
        FetchEvent::CliOrg(None) => EventView::CliOrg(None),
        FetchEvent::Reply(Ok(j)) => EventView::Reply(Ok(j)),
        FetchEvent::Reply(Err(e)) => EventView::Reply(Err(e@)),
    }
}

pub open spec fn action_view(a: FetchAction) -> ActionView {
    match a {
        FetchAction::Get(url) => ActionView::Get(url@),
        FetchAction::Fail(e) => ActionView::Fail(e@),
        FetchAction::Report { subscription, usage } => ActionView::Report(subscription, usage),
        FetchAction::Show(u) => ActionView::Show(u),
    }
}

/// The first event is the CLI's organization; every later one is a reply.
pub open spec fn event_fits(s: StateView, e: EventView) -> bool {
    match s {
        StateView::Start => e is CliOrg,
        StateView::Done => false,
        _ => e is Reply,
    }
}

/// The organization a fetch uses from the account document: the widget takes
/// any membership UUID, the debug view only one that is not empty.
pub open spec fn org_of_account(mode: FetchMode, me: Json) -> Result<Seq<char>, Seq<char>> {
    match account_org(me) {
        Some(u) => if mode == FetchMode::Widget || u.len() > 0 {
            Ok(u)
        } else {
            Err(no_org_message())
        },
        None => Err(no_org_message()),
    }
}

/// Once the organization is known: the widget asks for its subscription
/// details, the debug view directly for its usage report.
pub open spec fn after_org(mode: FetchMode, org: Seq<char>, base: Seq<char>) -> (StateView, ActionView) {
    if mode == FetchMode::Widget {
        (StateView::Subscription(org), ActionView::Get(org_url(base, org, "subscription_details"@)))
    } else {
        (StateView::Usage(org, None), ActionView::Get(org_url(base, org, "usage"@)))
    }
}

/// One step of a usage fetch against the web API at `base`.  The CLI's
/// organization is used when it is not empty, otherwise the account document
/// is fetched and its organization taken.  A failed account or usage request
/// ends the fetch with its error; a failed subscription request is ignored.
/// The widget ends with the subscription details and the usage report, the
/// debug view with the usage report.
pub open spec fn fetch_next(mode: FetchMode, s: StateView, e: EventView, base: Seq<char>) -> (
    StateView,
    ActionView,
) {
    match (s, e) {
        (StateView::Start, EventView::CliOrg(cli)) => match cli {
            Some(id) => if id.len() > 0 {
                after_org(mode, id, base)
            } else {
                (StateView::Account, ActionView::Get(base + "/account"@))
            },
            None => (StateView::Account, ActionView::Get(base + "/account"@)),
        },
        (StateView::Account, EventView::Reply(Err(err))) => (StateView::Done, ActionView::Fail(err)),
        (StateView::Account, EventView::Reply(Ok(me))) => match org_of_account(mode, me) {
            Ok(org) => after_org(mode, org, base),
            Err(err) => (StateView::Done, ActionView::Fail(err)),
        },
        (StateView::Subscription(org), EventView::Reply(r)) => (
            StateView::Usage(org, r.ok()),
            ActionView::Get(org_url(base, org, "usage"@)),
        ),
        (StateView::Usage(_org, _sub), EventView::Reply(Err(err))) => (
            StateView::Done,
            ActionView::Fail(err),
        ),
        (StateView::Usage(_org, sub), EventView::Reply(Ok(u))) => (
            StateView::Done,
            if mode == FetchMode::Widget {
                ActionView::Report(sub, u)
            } else {
                ActionView::Show(u)
            },
        ),
        _ => (StateView::Done, ActionView::Fail(Seq::empty())),
    }
}

fn step_after_org(mode: FetchMode, org: String, base: &str) -> (r: (UsageFetch, FetchAction))
    ensures
        (state_view(r.0), action_view(r.1)) == after_org(mode, org@, base@),
{
    match mode {
        FetchMode::Widget => {
            let url = org_resource_url(base, org.as_str(), "subscription_details");
            (UsageFetch::Subscription { org }, FetchAction::Get(url))
        },
        FetchMode::Debug => {
            let url = org_resource_url(base, org.as_str(), "usage");
            (UsageFetch::Usage { org, subscription: None }, FetchAction::Get(url))
        },
    }
}

/// One step of a usage fetch (see `fetch_next`).
pub fn usage_fetch_step(mode: FetchMode, state: UsageFetch, event: FetchEvent, base: &str) -> (r: (
    UsageFetch,
    FetchAction,
))
    requires
        event_fits(state_view(state), event_view(event)),
    ensures
        (state_view(r.0), action_view(r.1)) == fetch_next(
            mode,
            state_view(state),
            event_view(event),
            base@,
        ),
{
    match state {
        UsageFetch::Start => {
            let cli = match event {
                FetchEvent::CliOrg(c) => c,
                FetchEvent::Reply(_) => None,
            };
            match known_org(cli) {
                Some(id) => step_after_org(mode, id, base),
                None => {
                    let mut url = String::from_str(base);
                    url.append("/account");
                    (UsageFetch::Account, FetchAction::Get(url))
                },
            }
        },
        UsageFetch::Account => match event {
            FetchEvent::Reply(Ok(me)) => {
                let org = match mode {
                    FetchMode::Widget => usage_org_from_account(&me),
                    FetchMode::Debug => debug_org_from_account(&me),
                };
                match org {
                    Ok(o) => step_after_org(mode, o, base),
                    Err(e) => (UsageFetch::Done, FetchAction::Fail(e)),
                }
            },
            FetchEvent::Reply(Err(e)) => (UsageFetch::Done, FetchAction::Fail(e)),
            FetchEvent::CliOrg(_) => (UsageFetch::Done, FetchAction::Fail(String::new())),
        },
        UsageFetch::Subscription { org } => {
            let url = org_resource_url(base, org.as_str(), "usage");
            let subscription = match event {
                FetchEvent::Reply(Ok(j)) => Some(j),
                _ => None,
            };
            (UsageFetch::Usage { org, subscription }, FetchAction::Get(url))
        },
        UsageFetch::Usage { org: _, subscription } => match event {
            FetchEvent::Reply(Ok(u)) => match mode {
                FetchMode::Widget => (
                    UsageFetch::Done,
                    FetchAction::Report { subscription, usage: u },
                ),
                FetchMode::Debug => (UsageFetch::Done, FetchAction::Show(u)),
            },
            FetchEvent::Reply(Err(e)) => (UsageFetch::Done, FetchAction::Fail(e)),
            FetchEvent::CliOrg(_) => (UsageFetch::Done, FetchAction::Fail(String::new())),
        },
        UsageFetch::Done => (UsageFetch::Done, FetchAction::Fail(String::new())),
    }
}

/// How far a fetch is from its end: each step lowers it.
pub open spec fn fetch_rank(s: StateView) -> nat {
    match s {
        StateView::Start => 4,
        StateView::Account => 3,
        StateView::Subscription(_) => 2,
        StateView::Usage(_, _) => 1,
        StateView::Done => 0,
    }
}

/// Every step of a fetch moves it closer to its end, and asks for a request
/// exactly when the fetch goes on; so a fetch ends after at most three
/// requests.
pub proof fn law_fetch_step_progresses(mode: FetchMode, s: StateView, e: EventView, base: Seq<char>)
    requires
        event_fits(s, e),
    ensures
        fetch_rank(fetch_next(mode, s, e, base).0) < fetch_rank(s),
        (fetch_next(mode, s, e, base).1 is Get) <==> !(fetch_next(mode, s, e, base).0 is Done),
{
}

} // verus!
