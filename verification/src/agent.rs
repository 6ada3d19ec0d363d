//! The agent that a credential belongs to.

use vstd::prelude::*;
use vstd::string::StringExecFns;

use crate::client::{request_for, Method, Request, SpaceTradersClient};
use crate::envelope::{field, optional, read_field, read_optional, Payload};
use crate::json::{Json, JsonView};
use crate::text::{decimal, labelled, labelled_number};

verus! {

/// The path of the endpoint that describes the agent.
pub const AGENT_PATH: &'static str = "/my/agent";

/// What the API tells of an agent.
#[derive(Debug, Clone, PartialEq, Eq)]
pub struct Agent {
    pub account_id: Option<String>,
    pub symbol: String,
    pub headquarters: String,
    pub credits: i64,
    pub starting_faction: String,
    pub ship_count: i32,
}

pub struct AgentView {
    pub account_id: Option<Seq<char>>,
    pub symbol: Seq<char>,
    pub headquarters: Seq<char>,
    pub credits: int,
    pub starting_faction: Seq<char>,
    pub ship_count: int,
}

impl View for Agent {
    type V = AgentView;

    open spec fn view(&self) -> AgentView {
        AgentView {
            account_id: self.account_id.deep_view(),
            symbol: self.symbol@,
            headquarters: self.headquarters@,
            credits: self.credits as int,
            starting_faction: self.starting_faction@,
            ship_count: self.ship_count as int,
        }
    }
}

impl DeepView for Agent {
    type V = AgentView;

    open spec fn deep_view(&self) -> AgentView {
        self@
    }
}

/// An agent is an object with the members `symbol`, `headquarters`,
/// `credits`, `startingFaction` and `shipCount`; `accountId` may be left out.
impl Payload for Agent {
    open spec fn shape(json: JsonView) -> Option<AgentView> {
        if optional::<String>(json, "accountId"@) is Some
            && field::<String>(json, "symbol"@) is Some
            && field::<String>(json, "headquarters"@) is Some
            && field::<i64>(json, "credits"@) is Some
            && field::<String>(json, "startingFaction"@) is Some
            && field::<i32>(json, "shipCount"@) is Some {
            Some(
                AgentView {
                    account_id: optional::<String>(json, "accountId"@).unwrap(),
                    symbol: field::<String>(json, "symbol"@).unwrap(),
                    headquarters: field::<String>(json, "headquarters"@).unwrap(),
                    credits: field::<i64>(json, "credits"@).unwrap() as int,
                    starting_faction: field::<String>(json, "startingFaction"@).unwrap(),
                    ship_count: field::<i32>(json, "shipCount"@).unwrap() as int,
                },
            )
        } else {
            None
        }
    }

    fn from_json(json: &Json) -> (r: Option<Agent>) {
        let account_id = read_optional::<String>(json, "accountId")?;
        let symbol = read_field::<String>(json, "symbol")?;
        let headquarters = read_field::<String>(json, "headquarters")?;
        let credits = read_field::<i64>(json, "credits")?;
        let starting_faction = read_field::<String>(json, "startingFaction")?;
        let ship_count = read_field::<i32>(json, "shipCount")?;
        Some(Agent { account_id, symbol, headquarters, credits, starting_faction, ship_count })
    }
}

impl AgentView {
    /// The lines that describe the agent to an operator.
    pub open spec fn lines(self) -> Seq<Seq<char>> {
        seq![
            ""@,
            "=== Agent Information ==="@,
            "Symbol: "@ + self.symbol,
            "Credits: "@ + decimal(self.credits),
            "Headquarters: "@ + self.headquarters,
            "Starting Faction: "@ + self.starting_faction,
            "Ship Count: "@ + decimal(self.ship_count),
        ] + match self.account_id {
            Some(id) => seq!["Account ID: "@ + id],
            None => seq![],
        }
    }
}

impl Agent {
    /// Describes the agent, one line of output per item.
    pub fn display(&self) -> (lines: Vec<String>)
        ensures
            lines.deep_view() == self@.lines(),
    {
        let mut lines: Vec<String> = Vec::new();
        lines.push(String::from_str(""));
        lines.push(String::from_str("=== Agent Information ==="));
        lines.push(labelled("Symbol: ", self.symbol.as_str()));
        lines.push(labelled_number("Credits: ", self.credits as i128));
        lines.push(labelled("Headquarters: ", self.headquarters.as_str()));
        lines.push(labelled("Starting Faction: ", self.starting_faction.as_str()));
        lines.push(labelled_number("Ship Count: ", self.ship_count as i128));
        if let Some(id) = &self.account_id {
            lines.push(labelled("Account ID: ", id.as_str()));
        }
        lines
    }
}

/// The request that asks for the agent of the client's credential. Its
/// reply holds an [`Agent`].
pub fn fetch_agent(client: &SpaceTradersClient) -> (r: Request)
    ensures
        r@ == request_for(Method::Get, client.credential(), AGENT_PATH@, None),
{
    client.get(AGENT_PATH)
}

} // verus!
