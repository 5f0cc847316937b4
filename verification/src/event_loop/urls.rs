//! Service URLs: filling in a template, and what opening or copying the
//! selected service's URL comes to.
use vstd::prelude::*;

use crate::protocol::{ServiceSnapshot, ServiceView};
use crate::text::{begins, contains, decimal, has, number, replace, replaced, starts_with};

verus! {

/// The template with `{host}` and `{port}` filled in; nothing where it needs a
/// port that the service does not have.
pub open spec fn filled(template: Seq<char>, port: Option<u16>, host: Seq<char>) -> Option<
    Seq<char>,
> {
    if contains(template, "{port}"@) && port is None {
        None
    } else {
        let hosted = replaced(template, "{host}"@, host);
        Some(
            match port {
                Some(p) => replaced(hosted, "{port}"@, decimal(p as nat)),
                None => hosted,
            },
        )
    }
}

/// Fills a service URL template's `{host}` and `{port}` placeholders. Returns
/// `None` when the template needs a port the service hasn't resolved yet.
/// A verbatim URL (no placeholders) passes through unchanged.
pub fn resolve_service_url(template: &str, port: Option<u16>, host: &str) -> (r: Option<String>)
    ensures
        match r {
            Some(u) => filled(template@, port, host@) == Some(u@),
            None => filled(template@, port, host@) is None,
        },
{
    proof {
        reveal_strlit("{port}");
        reveal_strlit("{host}");
    }
    if has(template, "{port}") && port.is_none() {
        return None;
    }
    let url = replace(template, "{host}", host);
    match port {
        Some(p) => Some(replace(url.as_str(), "{port}", number(p as u64).as_str())),
        None => Some(url),
    }
}

/// What can be done with the selected service's URL.
#[derive(Debug, PartialEq, Eq)]
pub enum UrlPlan {
    /// No service is selected.
    Nothing,
    /// The service has no URL.
    NoUrl { name: String },
    /// Its URL needs a port that it does not have yet.
    NoPort { name: String },
    /// A browser can open it.
    Web { name: String, url: String },
    /// A bare address, such as a database's `host:port`.
    Address { name: String, url: String },
}

#[allow(inconsistent_fields)]
#[verifier::ext_equal]
pub ghost enum PlanView {
    Nothing,
    NoUrl { name: Seq<char> },
    NoPort { name: Seq<char> },
    Web { name: Seq<char>, url: Seq<char> },
    Address { name: Seq<char>, url: Seq<char> },
}

impl View for UrlPlan {
    type V = PlanView;

    open spec fn view(&self) -> PlanView {
        match *self {
            UrlPlan::Nothing => PlanView::Nothing,
            UrlPlan::NoUrl { name } => PlanView::NoUrl { name: name@ },
            UrlPlan::NoPort { name } => PlanView::NoPort { name: name@ },
            UrlPlan::Web { name, url } => PlanView::Web { name: name@, url: url@ },
            UrlPlan::Address { name, url } => PlanView::Address { name: name@, url: url@ },
        }
    }
}

/// The URL has a scheme that a browser opens.
pub open spec fn openable(url: Seq<char>) -> bool {
    starts_with(url, "http://"@) || starts_with(url, "https://"@)
}

/// The plan for a service on this machine.
pub open spec fn planned(service: Option<ServiceView>) -> PlanView {
    match service {
        None => PlanView::Nothing,
        Some(s) => match s.url {
            None => PlanView::NoUrl { name: s.name },
            Some(template) => match filled(template, s.port, "localhost"@) {
                None => PlanView::NoPort { name: s.name },
                Some(url) => if openable(url) {
                    PlanView::Web { name: s.name, url }
                } else {
                    PlanView::Address { name: s.name, url }
                },
            },
        },
    }
}

/// Plans what to do with a service's URL.
pub fn plan_url(service: Option<&ServiceSnapshot>) -> (r: UrlPlan)
    ensures
        r@ == planned(
            match service {
                Some(s) => Some(s@),
                None => None,
            },
        ),
{
    match service {
        None => UrlPlan::Nothing,
        Some(s) => match &s.url {
            None => UrlPlan::NoUrl { name: s.name.clone() },
            Some(template) => match resolve_service_url(template.as_str(), s.port, "localhost") {
                None => UrlPlan::NoPort { name: s.name.clone() },
                Some(url) => {
                    if begins(url.as_str(), "http://") || begins(url.as_str(), "https://") {
                        UrlPlan::Web { name: s.name.clone(), url }
                    } else {
                        UrlPlan::Address { name: s.name.clone(), url }
                    }
                },
            },
        },
    }
}

} // verus!
