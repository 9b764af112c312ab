//! The registry of providers: the profile that each provider keeps, and
//! what is handed to the issuer of the provider's credential.
//!
//! Issuing the credential itself is not done here. `register_agent` checks
//! and stores the profile and returns the descriptive data that the issuer
//! is to attach to the credential.

use crate::change::updated;
use crate::pubkey::Pubkey;
use crate::text::{byte_len, fits, text_view};
use vstd::prelude::*;
use vstd::string::StringExecFns;

verus! {

/// The most bytes that the name of a provider may take.
pub const MAX_NAME_LEN: usize = 50;

/// The most bytes that the description of a provider may take.
pub const MAX_DESCRIPTION_LEN: usize = 500;

/// The most bytes that the endpoint of a provider may take.
pub const MAX_ENDPOINT_LEN: usize = 200;

/// The most capabilities that a provider may list.
pub const MAX_CAPABILITIES: usize = 10;

/// The resale fee of a credential, in hundredths of a percent.
pub const SELLER_FEE_BASIS_POINTS: u16 = 500;

/// The percentage of resale fees that goes to the provider's creator.
pub const CREATOR_ROYALTY_SHARE: u8 = 100;

/// Why an operation of the registry was rejected.
#[derive(Clone, Copy, Debug, PartialEq, Eq, Structural)]
pub enum ErrorCode {
    /// The name is longer than `MAX_NAME_LEN`.
    NameTooLong,
    /// The description is longer than `MAX_DESCRIPTION_LEN`.
    DescriptionTooLong,
    /// The endpoint is longer than `MAX_ENDPOINT_LEN`.
    EndpointTooLong,
    /// More than `MAX_CAPABILITIES` capabilities are listed.
    TooManyCapabilities,
    /// The creator has registered a provider before.
    AgentAlreadyRegistered,
    /// The caller is not the creator of the provider.
    UnauthorizedCreator,
}

/// How a provider charges for its service.
#[derive(Clone, Copy, Debug, PartialEq, Eq, Structural)]
pub enum PricingModel {
    PerQuery { price: u64 },
    Subscription { monthly: u64 },
    Custom { base: u64, variable: u8 },
}

/// The profile of one provider.
#[derive(Clone, Debug, PartialEq, Eq)]
pub struct AgentProfile {
    pub agent_id: Pubkey,
    pub creator: Pubkey,
    pub name: String,
    pub description: String,
    pub capabilities: Vec<String>,
    pub pricing_model: PricingModel,
    pub endpoint_url: String,
    pub ipfs_hash: String,
    pub reputation_score: u32,
    pub total_services: u64,
    pub total_earnings: u64,
    pub created_at: i64,
    pub is_active: bool,
    pub nft_mint: Pubkey,
}

/// What an `AgentProfile` holds, with its texts as sequences of
/// characters.
pub struct AgentProfileView {
    pub agent_id: Pubkey,
    pub creator: Pubkey,
    pub name: Seq<char>,
    pub description: Seq<char>,
    pub capabilities: Seq<Seq<char>>,
    pub pricing_model: PricingModel,
    pub endpoint_url: Seq<char>,
    pub ipfs_hash: Seq<char>,
    pub reputation_score: u32,
    pub total_services: u64,
    pub total_earnings: u64,
    pub created_at: i64,
    pub is_active: bool,
    pub nft_mint: Pubkey,
}

impl View for AgentProfile {
    type V = AgentProfileView;

    open spec fn view(&self) -> AgentProfileView {
        AgentProfileView {
            agent_id: self.agent_id,
            creator: self.creator,
            name: self.name@,
            description: self.description@,
            capabilities: self.capabilities.deep_view(),
            pricing_model: self.pricing_model,
            endpoint_url: self.endpoint_url@,
            ipfs_hash: self.ipfs_hash@,
            reputation_score: self.reputation_score,
            total_services: self.total_services,
            total_earnings: self.total_earnings,
            created_at: self.created_at,
            is_active: self.is_active,
            nft_mint: self.nft_mint,
        }
    }
}

impl AgentProfileView {
    /// Name, description and endpoint are within their limits, and no more
    /// capabilities are listed than may be.
    pub open spec fn wf(self) -> bool {
        &&& byte_len(self.name) <= MAX_NAME_LEN
        &&& byte_len(self.description) <= MAX_DESCRIPTION_LEN
        &&& byte_len(self.endpoint_url) <= MAX_ENDPOINT_LEN
        &&& self.capabilities.len() <= MAX_CAPABILITIES
    }
}

/// The descriptive data that the issuer attaches to a provider's
/// credential.
#[derive(Clone, Debug, PartialEq, Eq)]
pub struct NftMetadata {
    pub name: String,
    pub symbol: String,
    pub uri: String,
    pub seller_fee_basis_points: u16,
    pub creator: Pubkey,
    pub creator_verified: bool,
    pub creator_share: u8,
}

/// A provider was registered.
#[derive(Clone, Debug, PartialEq, Eq)]
pub struct AgentRegistered {
    pub agent_id: Pubkey,
    pub creator: Pubkey,
    pub name: String,
    pub nft_mint: Pubkey,
    pub timestamp: i64,
}

/// A provider's profile was changed.
#[derive(Clone, Copy, Debug, PartialEq, Eq)]
pub struct AgentUpdated {
    pub agent_id: Pubkey,
    pub creator: Pubkey,
    pub timestamp: i64,
}

/// What the registry tells its observers.
#[derive(Clone, Debug, PartialEq, Eq)]
pub enum RegistryEvent {
    AgentRegistered(AgentRegistered),
    AgentUpdated(AgentUpdated),
}

/// The records that `register_agent` works on. `agent_profile` is the
/// place, of address `agent_profile_key`, that belongs to this creator: it
/// is empty until the creator registers a provider. `mint` is the address
/// of the credential, and `creator` the caller that has been
/// authenticated.
#[derive(Clone, Debug, PartialEq, Eq)]
pub struct RegisterAgent {
    pub agent_profile_key: Pubkey,
    pub agent_profile: Option<AgentProfile>,
    pub mint: Pubkey,
    pub creator: Pubkey,
}

/// The records that `update_agent` works on. `creator` is the caller that
/// has been authenticated.
#[derive(Clone, Debug, PartialEq, Eq)]
pub struct UpdateAgent {
    pub agent_profile: AgentProfile,
    pub creator: Pubkey,
}

/// The record that `update_reputation` works on.
#[derive(Clone, Debug, PartialEq, Eq)]
pub struct UpdateReputation {
    pub agent_profile: AgentProfile,
}

/// The reason for which a registration is rejected, if it is. `occupied`
/// says whether the creator has registered a provider before. The checks
/// come in this order.
pub open spec fn register_error(
    occupied: bool,
    name: Seq<char>,
    description: Seq<char>,
    endpoint_url: Seq<char>,
    capabilities: nat,
) -> Option<ErrorCode> {
    if occupied {
        Some(ErrorCode::AgentAlreadyRegistered)
    } else if byte_len(name) > MAX_NAME_LEN {
        Some(ErrorCode::NameTooLong)
    } else if byte_len(description) > MAX_DESCRIPTION_LEN {
        Some(ErrorCode::DescriptionTooLong)
    } else if byte_len(endpoint_url) > MAX_ENDPOINT_LEN {
        Some(ErrorCode::EndpointTooLong)
    } else if capabilities > MAX_CAPABILITIES {
        Some(ErrorCode::TooManyCapabilities)
    } else {
        None
    }
}

/// The name that a provider's credential carries.
pub open spec fn credential_name(name: Seq<char>) -> Seq<char> {
    "AgentMarket: "@ + name
}

/// Whether a text that an update may name is longer than `limit`.
pub open spec fn exceeds(text: Option<Seq<char>>, limit: usize) -> bool {
    text matches Some(t) && byte_len(t) > limit
}

/// The reason for which an update of a profile is rejected, if it is. The
/// checks come in this order.
pub open spec fn update_error(
    profile_creator: Pubkey,
    caller: Pubkey,
    name: Option<Seq<char>>,
    description: Option<Seq<char>>,
    endpoint_url: Option<Seq<char>>,
) -> Option<ErrorCode> {
    if caller != profile_creator {
        Some(ErrorCode::UnauthorizedCreator)
    } else if exceeds(name, MAX_NAME_LEN) {
        Some(ErrorCode::NameTooLong)
    } else if exceeds(description, MAX_DESCRIPTION_LEN) {
        Some(ErrorCode::DescriptionTooLong)
    } else if exceeds(endpoint_url, MAX_ENDPOINT_LEN) {
        Some(ErrorCode::EndpointTooLong)
    } else {
        None
    }
}

/// Whether a text that an update may name is within `limit`.
fn fits_if_given(text: &Option<String>, limit: usize) -> (ok: bool)
    ensures
        ok == !exceeds(text_view(*text), limit),
{
    match text {
        Some(t) => fits(t, limit),
        None => true,
    }
}

/// Registers a provider: stores its profile and returns the descriptive
/// data for the provider's credential.
///
/// Name, description and endpoint must be within their limits, and no more
/// than `MAX_CAPABILITIES` capabilities may be listed. The profile starts
/// active, with no reputation, no services and no earnings. A creator
/// registers one provider: where `ctx.agent_profile` holds a profile
/// already, the call is rejected. On any rejection nothing changes.
pub fn register_agent(
    ctx: &mut RegisterAgent,
    name: String,
    description: String,
    capabilities: Vec<String>,
    pricing: PricingModel,
    endpoint_url: String,
    ipfs_hash: String,
    symbol: String,
    uri: String,
    now: i64,
    events: &mut Vec<RegistryEvent>,
) -> (result: Result<NftMetadata, ErrorCode>)
    ensures
        match result {
            Ok(metadata) => {
                &&& register_error(
                    old(ctx).agent_profile is Some,
                    name@,
                    description@,
                    endpoint_url@,
                    capabilities@.len(),
                ) is None
                &&& final(ctx).agent_profile matches Some(profile) && profile@ == (AgentProfileView {
                    agent_id: old(ctx).agent_profile_key,
                    creator: old(ctx).creator,
                    name: name@,
                    description: description@,
                    capabilities: capabilities.deep_view(),
                    pricing_model: pricing,
                    endpoint_url: endpoint_url@,
                    ipfs_hash: ipfs_hash@,
                    reputation_score: 0,
                    total_services: 0,
                    total_earnings: 0,
                    created_at: now,
                    is_active: true,
                    nft_mint: old(ctx).mint,
                }) && profile@.wf()
                &&& final(ctx).agent_profile_key == old(ctx).agent_profile_key
                &&& final(ctx).mint == old(ctx).mint
                &&& final(ctx).creator == old(ctx).creator
                &&& metadata.name@ == credential_name(name@)
                &&& metadata.symbol == symbol
                &&& metadata.uri == uri
                &&& metadata.seller_fee_basis_points == SELLER_FEE_BASIS_POINTS
                &&& metadata.creator == old(ctx).creator
                &&& metadata.creator_verified
                &&& metadata.creator_share == CREATOR_ROYALTY_SHARE
                &&& final(events)@ == old(events)@.push(
                    RegistryEvent::AgentRegistered(
                        AgentRegistered {
                            agent_id: old(ctx).agent_profile_key,
                            creator: old(ctx).creator,
                            name,
                            nft_mint: old(ctx).mint,
                            timestamp: now,
                        },
                    ),
                )
            },
            Err(e) => {
                &&& register_error(
                    old(ctx).agent_profile is Some,
                    name@,
                    description@,
                    endpoint_url@,
                    capabilities@.len(),
                ) == Some(e)
                &&& *final(ctx) == *old(ctx)
                &&& final(events)@ == old(events)@
            },
        },
{
    if ctx.agent_profile.is_some() {
        return Err(ErrorCode::AgentAlreadyRegistered);
    }
    if !fits(&name, MAX_NAME_LEN) {
        return Err(ErrorCode::NameTooLong);
    }
    if !fits(&description, MAX_DESCRIPTION_LEN) {
        return Err(ErrorCode::DescriptionTooLong);
    }
    if !fits(&endpoint_url, MAX_ENDPOINT_LEN) {
        return Err(ErrorCode::EndpointTooLong);
    }
    if capabilities.len() > MAX_CAPABILITIES {
        return Err(ErrorCode::TooManyCapabilities);
    }
    let metadata = NftMetadata {
        name: String::from_str("AgentMarket: ").concat(name.as_str()),
        symbol,
        uri,
        seller_fee_basis_points: SELLER_FEE_BASIS_POINTS,
        creator: ctx.creator,
        creator_verified: true,
        creator_share: CREATOR_ROYALTY_SHARE,
    };
    let profile = AgentProfile {
        agent_id: ctx.agent_profile_key,
        creator: ctx.creator,
        name: name.clone(),
        description,
        capabilities,
        pricing_model: pricing,
        endpoint_url,
        ipfs_hash,
        reputation_score: 0,
        total_services: 0,
        total_earnings: 0,
        created_at: now,
        is_active: true,
        nft_mint: ctx.mint,
    };
    ctx.agent_profile = Some(profile);
    events.push(
        RegistryEvent::AgentRegistered(
            AgentRegistered {
                agent_id: ctx.agent_profile_key,
                creator: ctx.creator,
                name,
                nft_mint: ctx.mint,
                timestamp: now,
            },
        ),
    );
    Ok(metadata)
}

/// Changes a provider's profile. Only its creator may.
///
/// Each value that is given replaces the stored one; a given name,
/// description or endpoint must be within its limit, else the update is
/// rejected as a whole. On any rejection nothing changes.
pub fn update_agent(
    ctx: &mut UpdateAgent,
    name: Option<String>,
    description: Option<String>,
    pricing: Option<PricingModel>,
    endpoint_url: Option<String>,
    is_active: Option<bool>,
    now: i64,
    events: &mut Vec<RegistryEvent>,
) -> (result: Result<(), ErrorCode>)
    ensures
        match result {
            Ok(()) => {
                &&& update_error(
                    old(ctx).agent_profile.creator,
                    old(ctx).creator,
                    text_view(name),
                    text_view(description),
                    text_view(endpoint_url),
                ) is None
                &&& final(ctx).agent_profile@ == (AgentProfileView {
                    name: updated(old(ctx).agent_profile@.name, text_view(name)),
                    description: updated(
                        old(ctx).agent_profile@.description,
                        text_view(description),
                    ),
                    pricing_model: updated(old(ctx).agent_profile@.pricing_model, pricing),
                    endpoint_url: updated(
                        old(ctx).agent_profile@.endpoint_url,
                        text_view(endpoint_url),
                    ),
                    is_active: updated(old(ctx).agent_profile@.is_active, is_active),
                    ..old(ctx).agent_profile@
                })
                &&& old(ctx).agent_profile@.wf() ==> final(ctx).agent_profile@.wf()
                &&& final(ctx).creator == old(ctx).creator
                &&& final(events)@ == old(events)@.push(
                    RegistryEvent::AgentUpdated(
                        AgentUpdated {
                            agent_id: old(ctx).agent_profile.agent_id,
                            creator: old(ctx).agent_profile.creator,
                            timestamp: now,
                        },
                    ),
                )
            },
            Err(e) => {
                &&& update_error(
                    old(ctx).agent_profile.creator,
                    old(ctx).creator,
                    text_view(name),
                    text_view(description),
                    text_view(endpoint_url),
                ) == Some(e)
                &&& *final(ctx) == *old(ctx)
                &&& final(events)@ == old(events)@
            },
        },
{
    if ctx.creator != ctx.agent_profile.creator {
        return Err(ErrorCode::UnauthorizedCreator);
    }
    if !fits_if_given(&name, MAX_NAME_LEN) {
        return Err(ErrorCode::NameTooLong);
    }
    if !fits_if_given(&description, MAX_DESCRIPTION_LEN) {
        return Err(ErrorCode::DescriptionTooLong);
    }
    if !fits_if_given(&endpoint_url, MAX_ENDPOINT_LEN) {
        return Err(ErrorCode::EndpointTooLong);
    }
    if let Some(text) = name {
        ctx.agent_profile.name = text;
    }
    if let Some(text) = description {
        ctx.agent_profile.description = text;
    }
    if let Some(model) = pricing {
        ctx.agent_profile.pricing_model = model;
    }
    if let Some(text) = endpoint_url {
        ctx.agent_profile.endpoint_url = text;
    }
    if let Some(active) = is_active {
        ctx.agent_profile.is_active = active;
    }
    events.push(
        RegistryEvent::AgentUpdated(
            AgentUpdated {
                agent_id: ctx.agent_profile.agent_id,
                creator: ctx.agent_profile.creator,
                timestamp: now,
            },
        ),
    );
    Ok(())
}

/// Sets the reputation score and the number of services on a provider's
/// profile to the given values. It always succeeds and changes nothing
/// else.
pub fn update_reputation(ctx: &mut UpdateReputation, new_rating: u32, service_count: u64) -> (result:
    Result<(), ErrorCode>)
    ensures
        result is Ok,
        final(ctx).agent_profile@ == (AgentProfileView {
            reputation_score: new_rating,
            total_services: service_count,
            ..old(ctx).agent_profile@
        }),
{
    ctx.agent_profile.reputation_score = new_rating;
    ctx.agent_profile.total_services = service_count;
    Ok(())
}

} // verus!
