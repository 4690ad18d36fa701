use vstd::prelude::*;

verus! {

/// How this client describes itself when identifying.
#[derive(Debug)]
pub struct IdentifyProperties {
    pub browser: String,
    pub device: String,
    pub os: String,
    pub referrer: String,
    pub referring_domain: String,
}

impl IdentifyProperties {
    pub fn new(
        browser: String,
        device: String,
        os: String,
        referrer: String,
        referring_domain: String,
    ) -> (r: IdentifyProperties)
        ensures
            r == (IdentifyProperties { browser, device, os, referrer, referring_domain }),
    {
        IdentifyProperties { browser, device, os, referrer, referring_domain }
    }

    /// A copy equal to `self`.
    pub fn duplicate(&self) -> (r: IdentifyProperties)
        ensures
            r == *self,
    {
        IdentifyProperties {
            browser: self.browser.clone(),
            device: self.device.clone(),
            os: self.os.clone(),
            referrer: self.referrer.clone(),
            referring_domain: self.referring_domain.clone(),
        }
    }
}

/// The body of an Identify: it opens a new session.
#[derive(Debug)]
pub struct IdentifyInfo {
    pub compression: bool,
    pub guild_subscriptions: bool,
    pub large_threshold: u64,
    pub properties: IdentifyProperties,
    /// The shard index and the shard count.
    pub shard: (u64, u64),
    pub token: String,
    /// The protocol version.
    pub v: u64,
}

/// The body of a Resume: it continues a prior session.
#[derive(Debug)]
pub struct ResumeInfo {
    pub seq: u64,
    pub session_id: String,
    pub token: String,
}

/// An outbound payload.
#[derive(Debug)]
pub enum Payload {
    Identify(IdentifyInfo),
    Resume(ResumeInfo),
    /// A heartbeat carrying the last sequence number observed.
    Heartbeat(u64),
}

} // verus!
