use agent_market::agent_registry::{
    register_agent, update_agent, update_reputation, AgentProfile, AgentRegistered, AgentUpdated,
    ErrorCode, NftMetadata, PricingModel, RegisterAgent, RegistryEvent, UpdateAgent,
    UpdateReputation,
};
use agent_market::pubkey::Pubkey;

fn reg_key(n: u8) -> Pubkey {
    Pubkey::new_from_array([n; 32])
}

fn reg_ctx() -> RegisterAgent {
    RegisterAgent { agent_profile_key: reg_key(1), agent_profile: None, mint: reg_key(2), creator: reg_key(3) }
}

fn reg_profile() -> AgentProfile {
    AgentProfile {
        agent_id: reg_key(1),
        creator: reg_key(3),
        name: "Solver".to_string(),
        description: "Solves things".to_string(),
        capabilities: vec!["math".to_string(), "code".to_string()],
        pricing_model: PricingModel::PerQuery { price: 10 },
        endpoint_url: "https://example.org".to_string(),
        ipfs_hash: "Qm".to_string(),
        reputation_score: 0,
        total_services: 0,
        total_earnings: 0,
        created_at: 50,
        is_active: true,
        nft_mint: reg_key(2),
    }
}

fn reg_register(
    ctx: &mut RegisterAgent,
    name: String,
    description: String,
    capabilities: Vec<String>,
    endpoint: String,
    events: &mut Vec<RegistryEvent>,
) -> Result<NftMetadata, ErrorCode> {
    register_agent(
        ctx,
        name,
        description,
        capabilities,
        PricingModel::PerQuery { price: 10 },
        endpoint,
        "Qm".to_string(),
        "AGT".to_string(),
        "https://meta".to_string(),
        50,
        events,
    )
}

#[test]
fn register_stores_profile_and_describes_credential() {
    let mut ctx = reg_ctx();
    let mut events = Vec::new();
    let metadata = reg_register(
        &mut ctx,
        "Solver".to_string(),
        "Solves things".to_string(),
        vec!["math".to_string(), "code".to_string()],
        "https://example.org".to_string(),
        &mut events,
    )
    .unwrap();
    assert_eq!(ctx.agent_profile, Some(reg_profile()));
    assert_eq!(
        metadata,
        NftMetadata {
            name: "AgentMarket: Solver".to_string(),
            symbol: "AGT".to_string(),
            uri: "https://meta".to_string(),
            seller_fee_basis_points: 500,
            creator: reg_key(3),
            creator_verified: true,
            creator_share: 100,
        }
    );
    assert_eq!(
        events,
        vec![RegistryEvent::AgentRegistered(AgentRegistered {
            agent_id: reg_key(1),
            creator: reg_key(3),
            name: "Solver".to_string(),
            nft_mint: reg_key(2),
            timestamp: 50,
        })]
    );
}

#[test]
fn register_rejects_each_bound_in_order() {
    let long_name = "n".repeat(51);
    let long_description = "d".repeat(501);
    let long_endpoint = "e".repeat(201);
    let many: Vec<String> = (0..11).map(|i| format!("c{}", i)).collect();
    let mut events = Vec::new();

    let mut ctx = reg_ctx();
    assert_eq!(
        reg_register(&mut ctx, long_name.clone(), long_description.clone(), many.clone(), long_endpoint.clone(), &mut events),
        Err(ErrorCode::NameTooLong)
    );
    assert_eq!(
        reg_register(&mut ctx, "n".repeat(50), long_description.clone(), many.clone(), long_endpoint.clone(), &mut events),
        Err(ErrorCode::DescriptionTooLong)
    );
    assert_eq!(
        reg_register(&mut ctx, "n".repeat(50), "d".repeat(500), many.clone(), long_endpoint.clone(), &mut events),
        Err(ErrorCode::EndpointTooLong)
    );
    assert_eq!(
        reg_register(&mut ctx, "n".repeat(50), "d".repeat(500), many.clone(), "e".repeat(200), &mut events),
        Err(ErrorCode::TooManyCapabilities)
    );
    assert_eq!(ctx, reg_ctx());
    assert!(events.is_empty());
    let ten: Vec<String> = many[..10].to_vec();
    assert!(reg_register(&mut ctx, "n".repeat(50), "d".repeat(500), ten, "e".repeat(200), &mut events).is_ok());
}

#[test]
fn register_twice_is_rejected() {
    let mut ctx = reg_ctx();
    let mut events = Vec::new();
    reg_register(&mut ctx, "a".to_string(), String::new(), Vec::new(), String::new(), &mut events).unwrap();
    let before = ctx.clone();
    assert_eq!(
        reg_register(&mut ctx, "b".to_string(), String::new(), Vec::new(), String::new(), &mut events),
        Err(ErrorCode::AgentAlreadyRegistered)
    );
    assert_eq!(ctx, before);
    assert_eq!(events.len(), 1);
}

#[test]
fn update_agent_replaces_given_fields_only() {
    let mut ctx = UpdateAgent { agent_profile: reg_profile(), creator: reg_key(3) };
    let mut events = Vec::new();
    let result = update_agent(
        &mut ctx,
        Some("Better".to_string()),
        None,
        Some(PricingModel::Custom { base: 5, variable: 2 }),
        None,
        Some(false),
        60,
        &mut events,
    );
    assert_eq!(result, Ok(()));
    let mut expected = reg_profile();
    expected.name = "Better".to_string();
    expected.pricing_model = PricingModel::Custom { base: 5, variable: 2 };
    expected.is_active = false;
    assert_eq!(ctx.agent_profile, expected);
    assert_eq!(
        events,
        vec![RegistryEvent::AgentUpdated(AgentUpdated { agent_id: reg_key(1), creator: reg_key(3), timestamp: 60 })]
    );
}

#[test]
fn update_is_all_or_nothing() {
    let mut ctx = UpdateAgent { agent_profile: reg_profile(), creator: reg_key(3) };
    let mut events = Vec::new();
    let result = update_agent(
        &mut ctx,
        Some("Better".to_string()),
        Some("fine".to_string()),
        Some(PricingModel::Subscription { monthly: 9 }),
        Some("e".repeat(201)),
        Some(false),
        60,
        &mut events,
    );
    assert_eq!(result, Err(ErrorCode::EndpointTooLong));
    assert_eq!(ctx.agent_profile, reg_profile());
    assert!(events.is_empty());
}

#[test]
fn update_rejects_each_bound_in_order() {
    let mut ctx = UpdateAgent { agent_profile: reg_profile(), creator: reg_key(3) };
    let mut events = Vec::new();
    assert_eq!(
        update_agent(&mut ctx, Some("n".repeat(51)), Some("d".repeat(501)), None, Some("e".repeat(201)), None, 60, &mut events),
        Err(ErrorCode::NameTooLong)
    );
    assert_eq!(
        update_agent(&mut ctx, None, Some("d".repeat(501)), None, Some("e".repeat(201)), None, 60, &mut events),
        Err(ErrorCode::DescriptionTooLong)
    );
    assert_eq!(
        update_agent(&mut ctx, None, None, None, Some("e".repeat(201)), None, 60, &mut events),
        Err(ErrorCode::EndpointTooLong)
    );
    assert_eq!(ctx.agent_profile, reg_profile());
}

#[test]
fn update_agent_by_another_caller_is_rejected() {
    let mut ctx = UpdateAgent { agent_profile: reg_profile(), creator: reg_key(66) };
    let mut events = Vec::new();
    assert_eq!(
        update_agent(&mut ctx, Some("x".to_string()), None, None, None, None, 60, &mut events),
        Err(ErrorCode::UnauthorizedCreator)
    );
    assert_eq!(ctx.agent_profile, reg_profile());
    assert!(events.is_empty());
}

#[test]
fn update_reputation_sets_score_and_count() {
    let mut ctx = UpdateReputation { agent_profile: reg_profile() };
    assert_eq!(update_reputation(&mut ctx, 480, 12), Ok(()));
    let mut expected = reg_profile();
    expected.reputation_score = 480;
    expected.total_services = 12;
    assert_eq!(ctx.agent_profile, expected);
}
