//! Construction of DNS record update requests.
//!
//! An update request is an ephemeral value built per update attempt:
//! the record type and new address, the fixed host label, the
//! configured zone, the record identifier matching the address family,
//! no TTL override (provider default), and the proxy flag disabled.

use vstd::prelude::*;

use crate::addr::IpAddress;
use crate::addr::RecordType;
use crate::config::Config;
use crate::tracking::FamilyTracker;
use crate::tracking::update_issued;
use crate::tracking::updated_state;

verus! {

/// One DNS record update request, ready for the provider's
/// update-record call.
pub struct UpdateRequest {
    pub record_type: RecordType,
    pub content: IpAddress,
    pub name: String,
    pub zone_id: String,
    pub record_id: String,
    pub ttl: Option<u32>,
    pub proxied: Option<bool>,
}

/// What a well-built update request for `addr` under `cfg` holds: the
/// record type and identifier of the address's family, the address
/// itself as content, the fixed host label, the configured zone, the
/// provider-default TTL, and the proxy flag disabled.
pub open spec fn request_matches(r: UpdateRequest, cfg: Config, addr: IpAddress) -> bool {
    &&& r.record_type == (match addr {
        IpAddress::V4 { .. } => RecordType::A,
        IpAddress::V6 { .. } => RecordType::Aaaa,
    })
    &&& r.content == addr
    &&& r.name@ == "home"@
    &&& r.zone_id == cfg.zone_id
    &&& r.record_id == (match addr {
        IpAddress::V4 { .. } => cfg.record_v4_id,
        IpAddress::V6 { .. } => cfg.record_v6_id,
    })
    &&& r.ttl is None
    &&& r.proxied == Some(false)
}

/// Builds the update request for one newly discovered address.
pub fn build_update_request(cfg: &Config, addr: IpAddress) -> (r: UpdateRequest)
    ensures
        request_matches(r, *cfg, addr),
{
    let record_type = addr.record_type();
    let record_id = match addr {
        IpAddress::V4 { .. } => cfg.record_v4_id.clone(),
        IpAddress::V6 { .. } => cfg.record_v6_id.clone(),
    };
    UpdateRequest {
        record_type,
        content: addr,
        name: String::from_str("home"),
        zone_id: cfg.zone_id.clone(),
        record_id,
        ttl: None,
        proxied: Some(false),
    }
}

/// One family's share of a poll iteration: takes in the discovery
/// result and, exactly when it calls for an update, hands back the
/// request to send. The tracked address is advanced whether or not the
/// returned request later succeeds.
pub fn plan_family(cfg: &Config, tracker: &mut FamilyTracker, discovered: Option<IpAddress>) -> (req:
    Option<UpdateRequest>)
    ensures
        final(tracker).last == updated_state(old(tracker).last, discovered),
        req is Some <==> update_issued(old(tracker).last, discovered),
        req matches Some(r) ==> (discovered matches Some(a) && request_matches(r, *cfg, a)),
{
    let update = tracker.observe(discovered);
    if update {
        match discovered {
            Some(a) => Some(build_update_request(cfg, a)),
            None => None,
        }
    } else {
        None
    }
}

} // verus!
