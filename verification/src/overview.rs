//! Host identity: operating system, host name and uptime.

use vstd::prelude::*;

verus! {

/// The text of `text`, or no text where there is none.
pub open spec fn text_or_empty(text: Option<String>) -> Seq<char> {
    match text {
        Some(text) => text@,
        None => Seq::empty(),
    }
}

/// A copy of `text`, or the empty string where there is none.
pub fn text_or_default(text: &Option<String>) -> (result: String)
    ensures
        result@ == text_or_empty(*text),
{
    match text {
        Some(text) => text.clone(),
        None => String::new(),
    }
}

/// Slow-changing facts about the host.
#[derive(Clone, Debug, PartialEq, Eq)]
pub struct SystemOverview {
    os_name: String,
    host_name: String,
    uptime: u64,
}

/// What a [`SystemOverview`] holds.
pub struct SystemOverviewView {
    pub os_name: Seq<char>,
    pub host_name: Seq<char>,
    /// Seconds since the host started.
    pub uptime: u64,
}

/// The overview for what the operating system reports of itself.
pub open spec fn overview_of(
    os_name: Option<String>,
    host_name: Option<String>,
    uptime: u64,
) -> SystemOverviewView {
    SystemOverviewView {
        os_name: text_or_empty(os_name),
        host_name: text_or_empty(host_name),
        uptime,
    }
}

impl View for SystemOverview {
    type V = SystemOverviewView;

    closed spec fn view(&self) -> SystemOverviewView {
        SystemOverviewView {
            os_name: self.os_name@,
            host_name: self.host_name@,
            uptime: self.uptime,
        }
    }
}

impl SystemOverview {
    /// Builds the overview. A name that could not be read is shown as empty.
    pub fn new(os_name: &Option<String>, host_name: &Option<String>, uptime: u64) -> (overview:
        SystemOverview)
        ensures
            overview@ == overview_of(*os_name, *host_name, uptime),
    {
        SystemOverview {
            os_name: text_or_default(os_name),
            host_name: text_or_default(host_name),
            uptime,
        }
    }

    pub fn os_name(&self) -> (os_name: &String)
        ensures
            os_name@ == self@.os_name,
    {
        &self.os_name
    }

    pub fn host_name(&self) -> (host_name: &String)
        ensures
            host_name@ == self@.host_name,
    {
        &self.host_name
    }

    pub fn uptime(&self) -> (uptime: u64)
        ensures
            uptime == self@.uptime,
    {
        self.uptime
    }
}

} // verus!
