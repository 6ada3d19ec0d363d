use spacetraders::agent::{fetch_agent, Agent, AGENT_PATH};
use spacetraders::client::{classify, ApiError, DecodeError, Method, Reply, SpaceTradersClient};
use spacetraders::contracts::{
    accept_contract, contract_outcome, list_contracts, negotiate_contract, Contract,
    ContractDeliverGood, ContractPayment, ContractReply, ContractTerms,
};
use spacetraders::envelope::{Payload, ShapeError};
use spacetraders::json::Json;
use spacetraders::waypoint::{
    fetch_waypoint, system_symbol, Chart, Waypoint, WaypointFaction, WaypointModifier,
    WaypointOrbital, WaypointTrait,
};

fn received(status: u16, body: &str) -> Reply {
    Reply::Received { status, body: Ok(body.as_bytes().to_vec()) }
}

fn parse(text: &str) -> Json {
    Json::parse(text.as_bytes()).expect("test input is JSON")
}

fn s(text: &str) -> String {
    text.to_string()
}

fn headers(token: &str) -> Vec<(String, String)> {
    vec![(s("Content-Type"), s("application/json")), (s("Authorization"), format!("Bearer {}", token))]
}

fn sample_agent() -> Agent {
    Agent {
        account_id: Some(s("acc-1")),
        symbol: s("TANDEM_PILOT"),
        headquarters: s("X1-DF55-20250Z"),
        credits: 150000,
        starting_faction: s("COSMIC"),
        ship_count: 2,
    }
}

fn sample_contract() -> Contract {
    Contract {
        id: s("c-1"),
        faction_symbol: s("COSMIC"),
        contract_type: s("PROCUREMENT"),
        terms: ContractTerms {
            deadline: s("2026-01-01T00:00:00Z"),
            payment: ContractPayment { on_accepted: 1000, on_fulfilled: 9000 },
            deliver: Some(vec![
                ContractDeliverGood {
                    trade_symbol: s("IRON_ORE"),
                    destination_symbol: s("X1-DF55-A1"),
                    units_required: 100,
                    units_fulfilled: 40,
                },
                ContractDeliverGood {
                    trade_symbol: s("COPPER"),
                    destination_symbol: s("X1-DF55-B2"),
                    units_required: 5,
                    units_fulfilled: 0,
                },
            ]),
        },
        accepted: false,
        fulfilled: false,
        expiration: s("2026-02-01T00:00:00Z"),
        deadline_to_accept: Some(s("2025-12-01T00:00:00Z")),
    }
}

const CONTRACT_JSON: &str = r#"{
    "id": "c-1", "factionSymbol": "COSMIC", "type": "PROCUREMENT",
    "terms": {
        "deadline": "2026-01-01T00:00:00Z",
        "payment": {"onAccepted": 1000, "onFulfilled": 9000},
        "deliver": [
            {"tradeSymbol": "IRON_ORE", "destinationSymbol": "X1-DF55-A1",
             "unitsRequired": 100, "unitsFulfilled": 40},
            {"tradeSymbol": "COPPER", "destinationSymbol": "X1-DF55-B2",
             "unitsRequired": 5, "unitsFulfilled": 0}
        ]
    },
    "accepted": false, "fulfilled": false,
    "expiration": "2026-02-01T00:00:00Z",
    "deadlineToAccept": "2025-12-01T00:00:00Z"
}"#;

#[test]
fn agent_request() {
    let client = SpaceTradersClient::new(s("tok"));
    let request = fetch_agent(&client);
    assert_eq!(AGENT_PATH, "/my/agent");
    assert_eq!(request.method, Method::Get);
    assert_eq!(request.url, "https://api.spacetraders.io/v2/my/agent");
    assert_eq!(request.headers, headers("tok"));
    assert_eq!(request.body, None);
}

#[test]
fn agent_shape_with_and_without_account() {
    let full = parse(
        r#"{"accountId":"acc-1","symbol":"TANDEM_PILOT","headquarters":"X1-DF55-20250Z",
            "credits":150000,"startingFaction":"COSMIC","shipCount":2,"unknown":[1]}"#,
    );
    assert_eq!(Agent::from_json(&full), Some(sample_agent()));
    let bare = parse(
        r#"{"symbol":"A","headquarters":"H","credits":-5,"startingFaction":"F","shipCount":0}"#,
    );
    assert_eq!(
        Agent::from_json(&bare),
        Some(Agent {
            account_id: None,
            symbol: s("A"),
            headquarters: s("H"),
            credits: -5,
            starting_faction: s("F"),
            ship_count: 0,
        })
    );
    let null_account = parse(
        r#"{"accountId":null,"symbol":"A","headquarters":"H","credits":1,"startingFaction":"F","shipCount":0}"#,
    );
    assert_eq!(Agent::from_json(&null_account).map(|a| a.account_id), Some(None));
}

#[test]
fn agent_shape_mismatches() {
    let cases = [
        r#"{"headquarters":"H","credits":1,"startingFaction":"F","shipCount":0}"#,
        r#"{"symbol":"A","credits":1,"startingFaction":"F","shipCount":0}"#,
        r#"{"symbol":"A","headquarters":"H","startingFaction":"F","shipCount":0}"#,
        r#"{"symbol":"A","headquarters":"H","credits":1,"shipCount":0}"#,
        r#"{"symbol":"A","headquarters":"H","credits":1,"startingFaction":"F"}"#,
        r#"{"symbol":"A","headquarters":"H","credits":1.5,"startingFaction":"F","shipCount":0}"#,
        r#"{"symbol":"A","headquarters":"H","credits":"1","startingFaction":"F","shipCount":0}"#,
        r#"{"symbol":"A","headquarters":"H","credits":1,"startingFaction":"F","shipCount":2147483648}"#,
        r#"{"symbol":"A","headquarters":"H","credits":9223372036854775808,"startingFaction":"F","shipCount":0}"#,
        r#"{"symbol":null,"headquarters":"H","credits":1,"startingFaction":"F","shipCount":0}"#,
        r#"{"accountId":5,"symbol":"A","headquarters":"H","credits":1,"startingFaction":"F","shipCount":0}"#,
        r#"{"symbol":"A","headquarters":"H","credits":1,"starting_faction":"F","ship_count":0}"#,
        r#"["A","H",1,"F",0]"#,
        r#""agent""#,
    ];
    for case in cases {
        assert_eq!(Agent::from_json(&parse(case)), None, "{}", case);
    }
}

#[test]
fn agent_lines() {
    assert_eq!(
        sample_agent().display(),
        vec![
            s(""),
            s("=== Agent Information ==="),
            s("Symbol: TANDEM_PILOT"),
            s("Credits: 150000"),
            s("Headquarters: X1-DF55-20250Z"),
            s("Starting Faction: COSMIC"),
            s("Ship Count: 2"),
            s("Account ID: acc-1"),
        ]
    );
    let mut agent = sample_agent();
    agent.account_id = None;
    agent.credits = i64::MIN;
    agent.ship_count = -1;
    assert_eq!(
        agent.display(),
        vec![
            s(""),
            s("=== Agent Information ==="),
            s("Symbol: TANDEM_PILOT"),
            s("Credits: -9223372036854775808"),
            s("Headquarters: X1-DF55-20250Z"),
            s("Starting Faction: COSMIC"),
            s("Ship Count: -1"),
        ]
    );
}

#[test]
fn contract_requests() {
    let client = SpaceTradersClient::new(s("tok"));
    let list = list_contracts(&client);
    assert_eq!(list.method, Method::Get);
    assert_eq!(list.url, "https://api.spacetraders.io/v2/my/contracts");
    assert_eq!(list.headers, headers("tok"));
    assert_eq!(list.body, None);
    let accept = accept_contract(&client, "c-1");
    assert_eq!(accept.method, Method::Post);
    assert_eq!(accept.url, "https://api.spacetraders.io/v2/my/contracts/c-1/accept");
    assert_eq!(accept.headers, headers("tok"));
    assert_eq!(accept.body, None);
    let negotiate = negotiate_contract(&client, "SHIP-1");
    assert_eq!(negotiate.method, Method::Post);
    assert_eq!(negotiate.url, "https://api.spacetraders.io/v2/my/ships/SHIP-1/negotiate/contract");
    assert_eq!(negotiate.headers, headers("tok"));
    assert_eq!(negotiate.body, None);
}

#[test]
fn contract_shape() {
    assert_eq!(Contract::from_json(&parse(CONTRACT_JSON)), Some(sample_contract()));
    let minimal = parse(
        r#"{"id":"c","factionSymbol":"F","type":"T",
            "terms":{"deadline":"d","payment":{"onAccepted":1,"onFulfilled":2}},
            "accepted":true,"fulfilled":true,"expiration":"e"}"#,
    );
    assert_eq!(
        Contract::from_json(&minimal),
        Some(Contract {
            id: s("c"),
            faction_symbol: s("F"),
            contract_type: s("T"),
            terms: ContractTerms {
                deadline: s("d"),
                payment: ContractPayment { on_accepted: 1, on_fulfilled: 2 },
                deliver: None,
            },
            accepted: true,
            fulfilled: true,
            expiration: s("e"),
            deadline_to_accept: None,
        })
    );
}

#[test]
fn contract_shape_mismatches() {
    let cases = [
        r#"{"factionSymbol":"F","type":"T","terms":{"deadline":"d","payment":{"onAccepted":1,"onFulfilled":2}},"accepted":true,"fulfilled":true,"expiration":"e"}"#,
        r#"{"id":"c","factionSymbol":"F","contract_type":"T","terms":{"deadline":"d","payment":{"onAccepted":1,"onFulfilled":2}},"accepted":true,"fulfilled":true,"expiration":"e"}"#,
        r#"{"id":"c","factionSymbol":"F","type":"T","terms":{"deadline":"d","payment":{"onAccepted":1}},"accepted":true,"fulfilled":true,"expiration":"e"}"#,
        r#"{"id":"c","factionSymbol":"F","type":"T","terms":{"deadline":"d","payment":{"onAccepted":1,"onFulfilled":2},"deliver":[{}]},"accepted":true,"fulfilled":true,"expiration":"e"}"#,
        r#"{"id":"c","factionSymbol":"F","type":"T","terms":{"deadline":"d","payment":{"onAccepted":1,"onFulfilled":2},"deliver":{}},"accepted":true,"fulfilled":true,"expiration":"e"}"#,
        r#"{"id":"c","factionSymbol":"F","type":"T","terms":{"deadline":"d","payment":{"onAccepted":1,"onFulfilled":2}},"accepted":"yes","fulfilled":true,"expiration":"e"}"#,
        r#"{"id":"c","factionSymbol":"F","type":"T","terms":null,"accepted":true,"fulfilled":true,"expiration":"e"}"#,
    ];
    for case in cases {
        assert_eq!(Contract::from_json(&parse(case)), None, "{}", case);
    }
}

#[test]
fn contract_list_is_decoded_from_the_envelope() {
    let body = format!(r#"{{"data":[{},{}],"meta":{{"total":2}}}}"#, CONTRACT_JSON, CONTRACT_JSON);
    let outcome: Result<Vec<Contract>, ApiError> = classify(received(200, &body));
    assert_eq!(outcome, Ok(vec![sample_contract(), sample_contract()]));
    let empty: Result<Vec<Contract>, ApiError> = classify(received(200, r#"{"data":[]}"#));
    assert_eq!(empty, Ok(vec![]));
}

#[test]
fn contract_outcome_unwraps_the_contract() {
    let body = format!(r#"{{"data":{{"contract":{},"agent":{{}}}}}}"#, CONTRACT_JSON);
    assert_eq!(contract_outcome(received(200, &body)), Ok(sample_contract()));
    assert_eq!(
        ContractReply::from_json(&parse(&format!(r#"{{"contract":{}}}"#, CONTRACT_JSON))),
        Some(ContractReply { contract: sample_contract() })
    );
    let bare = format!(r#"{{"data":{}}}"#, CONTRACT_JSON);
    assert_eq!(
        contract_outcome(received(200, &bare)),
        Err(ApiError::Decode(DecodeError::Shape(ShapeError::Mismatch)))
    );
    assert_eq!(
        contract_outcome(received(400, "already accepted")),
        Err(ApiError::Status { status: 400, body: s("already accepted") })
    );
    assert_eq!(
        contract_outcome(Reply::Failed { cause: s("offline") }),
        Err(ApiError::Transport { cause: s("offline") })
    );
}

#[test]
fn contract_lines_pending() {
    assert_eq!(
        sample_contract().display(),
        vec![
            s(""),
            s("=== Contract c-1 ==="),
            s("Faction: COSMIC"),
            s("Type: PROCUREMENT"),
            s("Status: Pending Acceptance"),
            s("Accept By: 2025-12-01T00:00:00Z"),
            s(""),
            s("Payment:"),
            s("  On Acceptance: 1000 credits"),
            s("  On Fulfillment: 9000 credits"),
            s("  Total: 10000 credits"),
            s("Deadline: 2026-01-01T00:00:00Z"),
            s(""),
            s("Delivery Requirements:"),
            s("  - IRON_ORE: 40/100 units to X1-DF55-A1"),
            s("  - COPPER: 0/5 units to X1-DF55-B2"),
        ]
    );
}

#[test]
fn contract_lines_accepted_and_fulfilled() {
    let mut contract = sample_contract();
    contract.accepted = true;
    contract.terms.deliver = Some(vec![]);
    let lines = contract.display();
    assert_eq!(lines[4], "Status: Accepted");
    assert_eq!(lines[5], "");
    assert_eq!(lines.len(), 11);
    contract.fulfilled = true;
    contract.terms.deliver = None;
    contract.deadline_to_accept = None;
    let lines = contract.display();
    assert_eq!(lines[4], "Status: Fulfilled");
    assert_eq!(lines.len(), 11);
    assert_eq!(lines[10], "Deadline: 2026-01-01T00:00:00Z");
    contract.accepted = false;
    let lines = contract.display();
    assert_eq!(lines[4], "Status: Pending Acceptance");
    assert_eq!(lines.len(), 11);
}

#[test]
fn contract_total_does_not_overflow() {
    let mut contract = sample_contract();
    contract.terms.payment = ContractPayment { on_accepted: i64::MAX, on_fulfilled: i64::MAX };
    assert_eq!(contract.display()[10], "  Total: 18446744073709551614 credits");
    contract.terms.payment = ContractPayment { on_accepted: i64::MIN, on_fulfilled: i64::MIN };
    assert_eq!(contract.display()[10], "  Total: -18446744073709551616 credits");
    contract.terms.payment = ContractPayment { on_accepted: -7, on_fulfilled: 7 };
    assert_eq!(contract.display()[10], "  Total: 0 credits");
}

#[test]
fn delivery_line() {
    let good = ContractDeliverGood {
        trade_symbol: s("ICE"),
        destination_symbol: s("D"),
        units_required: i32::MAX,
        units_fulfilled: i32::MIN,
    };
    assert_eq!(good.line(), "  - ICE: -2147483648/2147483647 units to D");
}

fn sample_waypoint() -> Waypoint {
    Waypoint {
        symbol: s("X1-DF55-20250Z"),
        waypoint_type: s("PLANET"),
        system_symbol: s("X1-DF55"),
        x: 10,
        y: -20,
        orbitals: vec![WaypointOrbital { symbol: s("X1-DF55-M1") }, WaypointOrbital { symbol: s("X1-DF55-M2") }],
        traits: vec![
            WaypointTrait { symbol: s("MARKETPLACE"), name: s("Marketplace"), description: s("A place to trade.") },
            WaypointTrait { symbol: s("SHIPYARD"), name: s("Shipyard"), description: s("Ships are built here.") },
        ],
        is_under_construction: false,
        orbits: Some(s("X1-DF55-STAR")),
        faction: Some(WaypointFaction { symbol: s("COSMIC") }),
        modifiers: Some(vec![WaypointModifier {
            symbol: s("STRIPPED"),
            name: s("Stripped"),
            description: s("Little is left."),
        }]),
        chart: Some(Chart {
            waypoint_symbol: Some(s("X1-DF55-20250Z")),
            submitted_by: Some(s("COSMIC")),
            submitted_on: None,
        }),
    }
}

const WAYPOINT_JSON: &str = r#"{
    "symbol": "X1-DF55-20250Z", "type": "PLANET", "systemSymbol": "X1-DF55",
    "x": 10, "y": -20,
    "orbitals": [{"symbol": "X1-DF55-M1"}, {"symbol": "X1-DF55-M2"}],
    "traits": [
        {"symbol": "MARKETPLACE", "name": "Marketplace", "description": "A place to trade."},
        {"symbol": "SHIPYARD", "name": "Shipyard", "description": "Ships are built here."}
    ],
    "isUnderConstruction": false,
    "orbits": "X1-DF55-STAR",
    "faction": {"symbol": "COSMIC"},
    "modifiers": [{"symbol": "STRIPPED", "name": "Stripped", "description": "Little is left."}],
    "chart": {"waypointSymbol": "X1-DF55-20250Z", "submittedBy": "COSMIC"}
}"#;

#[test]
fn waypoint_request() {
    let request = fetch_waypoint("tok", "X1-DF55", "X1-DF55-20250Z");
    assert_eq!(request.method, Method::Get);
    assert_eq!(
        request.url,
        "https://api.spacetraders.io/v2/systems/X1-DF55/waypoints/X1-DF55-20250Z"
    );
    assert_eq!(request.headers, headers("tok"));
    assert_eq!(request.body, None);
}

#[test]
fn waypoint_shape() {
    assert_eq!(Waypoint::from_json(&parse(WAYPOINT_JSON)), Some(sample_waypoint()));
    let minimal = parse(
        r#"{"symbol":"W","type":"T","systemSymbol":"S","x":0,"y":0,"orbitals":[],"traits":[],
            "isUnderConstruction":true}"#,
    );
    assert_eq!(
        Waypoint::from_json(&minimal),
        Some(Waypoint {
            symbol: s("W"),
            waypoint_type: s("T"),
            system_symbol: s("S"),
            x: 0,
            y: 0,
            orbitals: vec![],
            traits: vec![],
            is_under_construction: true,
            orbits: None,
            faction: None,
            modifiers: None,
            chart: None,
        })
    );
    let outcome: Result<Waypoint, ApiError> =
        classify(received(200, &format!(r#"{{"data":{}}}"#, WAYPOINT_JSON)));
    assert_eq!(outcome, Ok(sample_waypoint()));
}

#[test]
fn waypoint_shape_mismatches() {
    let cases = [
        r#"{"symbol":"W","type":"T","systemSymbol":"S","x":0,"y":0,"traits":[],"isUnderConstruction":true}"#,
        r#"{"symbol":"W","type":"T","systemSymbol":"S","x":0,"y":0,"orbitals":[],"isUnderConstruction":true}"#,
        r#"{"symbol":"W","type":"T","systemSymbol":"S","x":0,"y":0,"orbitals":null,"traits":[],"isUnderConstruction":true}"#,
        r#"{"symbol":"W","type":"T","systemSymbol":"S","x":0.5,"y":0,"orbitals":[],"traits":[],"isUnderConstruction":true}"#,
        r#"{"symbol":"W","type":"T","systemSymbol":"S","x":0,"y":0,"orbitals":[{"name":"o"}],"traits":[],"isUnderConstruction":true}"#,
        r#"{"symbol":"W","type":"T","systemSymbol":"S","x":0,"y":0,"orbitals":[],"traits":[{"symbol":"s","name":"n"}],"isUnderConstruction":true}"#,
        r#"{"symbol":"W","type":"T","systemSymbol":"S","x":0,"y":0,"orbitals":[],"traits":[],"isUnderConstruction":true,"faction":"COSMIC"}"#,
        r#"{"symbol":"W","type":"T","systemSymbol":"S","x":0,"y":0,"orbitals":[],"traits":[],"isUnderConstruction":true,"chart":7}"#,
        r#"{"symbol":"W","type":"T","systemSymbol":"S","x":0,"y":0,"orbitals":[],"traits":[],"isUnderConstruction":true,"chart":{"submittedBy":1}}"#,
        r#"{"symbol":"W","type":"T","systemSymbol":"S","x":0,"y":0,"orbitals":[],"traits":[],"isUnderConstruction":true,"modifiers":[{"symbol":"m"}]}"#,
        r#"{"symbol":"W","type":"T","systemSymbol":"S","x":0,"y":0,"orbitals":[],"traits":[],"isUnderConstruction":true,"orbits":3}"#,
    ];
    for case in cases {
        assert_eq!(Waypoint::from_json(&parse(case)), None, "{}", case);
    }
}

#[test]
fn chart_shape() {
    assert_eq!(
        Chart::from_json(&parse("{}")),
        Some(Chart { waypoint_symbol: None, submitted_by: None, submitted_on: None })
    );
    assert_eq!(
        Chart::from_json(&parse(r#"{"submittedOn":"2025-01-01","waypointSymbol":null}"#)),
        Some(Chart { waypoint_symbol: None, submitted_by: None, submitted_on: Some(s("2025-01-01")) })
    );
    assert_eq!(Chart::from_json(&parse("[]")), None);
    assert_eq!(Chart::from_json(&parse("null")), None);
    assert_eq!(Chart::from_json(&parse("1")), None);
}

#[test]
fn waypoint_lines_in_full() {
    assert_eq!(
        sample_waypoint().display(),
        vec![
            s(""),
            s("=== Waypoint Information ==="),
            s("Symbol: X1-DF55-20250Z"),
            s("Type: PLANET"),
            s("System: X1-DF55"),
            s("Coordinates: (10, -20)"),
            s("Orbits: X1-DF55-STAR"),
            s("Faction: COSMIC"),
            s("Under Construction: false"),
            s(""),
            s("Orbitals:"),
            s("  - X1-DF55-M1"),
            s("  - X1-DF55-M2"),
            s(""),
            s("Traits:"),
            s("  - Marketplace (MARKETPLACE)"),
            s("    A place to trade."),
            s("  - Shipyard (SHIPYARD)"),
            s("    Ships are built here."),
            s(""),
            s("Modifiers:"),
            s("  - Stripped (STRIPPED)"),
            s("    Little is left."),
        ]
    );
}

#[test]
fn waypoint_lines_at_the_least() {
    let mut waypoint = sample_waypoint();
    waypoint.orbitals = vec![];
    waypoint.traits = vec![];
    waypoint.modifiers = Some(vec![]);
    waypoint.orbits = None;
    waypoint.faction = None;
    waypoint.is_under_construction = true;
    waypoint.x = i32::MIN;
    waypoint.y = i32::MAX;
    let want = vec![
        s(""),
        s("=== Waypoint Information ==="),
        s("Symbol: X1-DF55-20250Z"),
        s("Type: PLANET"),
        s("System: X1-DF55"),
        s("Coordinates: (-2147483648, 2147483647)"),
        s("Under Construction: true"),
    ];
    assert_eq!(waypoint.display(), want);
    waypoint.modifiers = None;
    assert_eq!(waypoint.display(), want);
}

#[test]
fn system_symbol_is_what_stands_before_the_last_dash() {
    assert_eq!(system_symbol("X1-DF55-20250Z"), "X1-DF55");
    assert_eq!(system_symbol("X1-DF55"), "X1");
    assert_eq!(system_symbol("NODASH"), "NODASH");
    assert_eq!(system_symbol(""), "");
    assert_eq!(system_symbol("-"), "");
    assert_eq!(system_symbol("A-"), "A");
    assert_eq!(system_symbol("-B"), "");
    assert_eq!(system_symbol("A--B"), "A-");
    assert_eq!(system_symbol("Ünï-cödé-ß"), "Ünï-cödé");
}
