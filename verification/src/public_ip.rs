//! Public address: what one lookup at the geolocation service gives.
//!
//! The lookup is one request and one decoding of its answer. This module
//! holds what is decided about them: where to ask, and what each way in
//! which the lookup can end means for the caller.

use vstd::prelude::*;
use vstd::string::*;

verus! {

/// The text of `text`, where there is one.
pub open spec fn option_text(text: Option<String>) -> Option<Seq<char>> {
    match text {
        Some(text) => Some(text@),
        None => None,
    }
}

/// The public address of the host and where the service places it. Only the
/// address itself is always there.
#[derive(Clone, Debug, PartialEq, Eq)]
pub struct PublicIpInfo {
    ip: String,
    city: Option<String>,
    region: Option<String>,
    country: Option<String>,
    org: Option<String>,
}

/// What a [`PublicIpInfo`] holds.
pub struct PublicIpInfoView {
    pub ip: Seq<char>,
    pub city: Option<Seq<char>>,
    pub region: Option<Seq<char>>,
    pub country: Option<Seq<char>>,
    pub org: Option<Seq<char>>,
}

impl View for PublicIpInfo {
    type V = PublicIpInfoView;

    closed spec fn view(&self) -> PublicIpInfoView {
        PublicIpInfoView {
            ip: self.ip@,
            city: option_text(self.city),
            region: option_text(self.region),
            country: option_text(self.country),
            org: option_text(self.org),
        }
    }
}

impl PublicIpInfo {
    pub fn new(
        ip: String,
        city: Option<String>,
        region: Option<String>,
        country: Option<String>,
        org: Option<String>,
    ) -> (info: PublicIpInfo)
        ensures
            info@ == (PublicIpInfoView {
                ip: ip@,
                city: option_text(city),
                region: option_text(region),
                country: option_text(country),
                org: option_text(org),
            }),
    {
        PublicIpInfo { ip, city, region, country, org }
    }

    pub fn ip(&self) -> (ip: &String)
        ensures
            ip@ == self@.ip,
    {
        &self.ip
    }

    pub fn city(&self) -> (city: &Option<String>)
        ensures
            option_text(*city) == self@.city,
    {
        &self.city
    }

    pub fn region(&self) -> (region: &Option<String>)
        ensures
            option_text(*region) == self@.region,
    {
        &self.region
    }

    pub fn country(&self) -> (country: &Option<String>)
        ensures
            option_text(*country) == self@.country,
    {
        &self.country
    }

    pub fn org(&self) -> (org: &Option<String>)
        ensures
            option_text(*org) == self@.org,
    {
        &self.org
    }
}

/// Why a lookup failed. Each variant carries the description that the
/// failing step gave.
#[derive(Clone, Debug, PartialEq, Eq)]
pub enum LookupError {
    /// The request did not get an answer.
    Network(String),
    /// The answer was not of the expected shape.
    Decode(String),
}

/// What a failure is shown as: what failed, then the description.
pub open spec fn message_of(error: LookupError) -> Seq<char> {
    match error {
        LookupError::Network(description) => "请求失败: "@ + description@,
        LookupError::Decode(description) => "解析失败: "@ + description@,
    }
}

impl LookupError {
    /// The failure as text for the caller.
    pub fn message(&self) -> (message: String)
        ensures
            message@ == message_of(*self),
            message@.len() > 0,
    {
        proof {
            reveal_strlit("请求失败: ");
            reveal_strlit("解析失败: ");
        }
        match self {
            LookupError::Network(description) => {
                let mut message: String = "请求失败: ".to_owned();
                message.append(description.as_str());
                message
            },
            LookupError::Decode(description) => {
                let mut message: String = "解析失败: ".to_owned();
                message.append(description.as_str());
                message
            },
        }
    }
}

/// How a lookup ended.
#[derive(Clone, Debug, PartialEq, Eq)]
pub enum LookupOutcome {
    /// The request failed in transport; the description is the client's.
    TransportFailed(String),
    /// An answer came, and could not be decoded; the description is the
    /// decoder's.
    Undecodable(String),
    /// An answer came and was decoded.
    Decoded(PublicIpInfo),
}

/// What `outcome` means for the caller.
pub open spec fn resolved(outcome: LookupOutcome) -> Result<PublicIpInfo, LookupError> {
    match outcome {
        LookupOutcome::TransportFailed(description) => Err(LookupError::Network(description)),
        LookupOutcome::Undecodable(description) => Err(LookupError::Decode(description)),
        LookupOutcome::Decoded(info) => Ok(info),
    }
}

/// The service that is asked for the public address.
pub fn endpoint() -> (url: &'static str)
    ensures
        url@ == "https://ipinfo.io/json"@,
{
    "https://ipinfo.io/json"
}

/// Turns the outcome of the one request into the caller's result: the
/// decoded address, a network error for a failed transport, a decode error
/// for an answer of the wrong shape. Nothing is retried.
pub fn resolve_public_ip(outcome: LookupOutcome) -> (result: Result<PublicIpInfo, LookupError>)
    ensures
        result == resolved(outcome),
        result is Ok <==> outcome is Decoded,
{
    match outcome {
        LookupOutcome::TransportFailed(description) => Err(LookupError::Network(description)),
        LookupOutcome::Undecodable(description) => Err(LookupError::Decode(description)),
        LookupOutcome::Decoded(info) => Ok(info),
    }
}

/// The message of a failure is never empty, and it ends with the
/// description that the failing step gave.
pub proof fn lemma_message_describes(error: LookupError)
    ensures
        message_of(error).len() > 0,
        match error {
            LookupError::Network(description) => description@.is_suffix_of(message_of(error)),
            LookupError::Decode(description) => description@.is_suffix_of(message_of(error)),
        },
{
    reveal_strlit("请求失败: ");
    reveal_strlit("解析失败: ");
    match error {
        LookupError::Network(description) => {
            let prefix = "请求失败: "@;
            assert(message_of(error).skip(prefix.len() as int) =~= description@);
        },
        LookupError::Decode(description) => {
            let prefix = "解析失败: "@;
            assert(message_of(error).skip(prefix.len() as int) =~= description@);
        },
    }
}

} // verus!
