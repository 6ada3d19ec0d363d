//! Registering a new agent, with a report for the operator.
//!
//! The request is the one that [`SpaceTradersClient::register`] makes, and a
//! reply gives the same credential and symbol here as it gives there. What
//! is read besides them, the agent's credits and headquarters, serves the
//! report alone: where the reply does not hold them, the report leaves their
//! lines out.

use vstd::prelude::*;

use crate::client::{
    classify, outcome, registration_body, request_for, ApiError, ApiErrorView, Method,
    Registration, RegistrationView, Reply, ReplyView, Request, SpaceTradersClient, REGISTER_PATH,
};
use crate::envelope::{field, read_field, Payload};
use crate::json::{Json, JsonView};
use crate::text::{decimal, labelled, labelled_number};

verus! {

/// What a registration reply tells of the new agent.
#[derive(Debug, Clone, PartialEq, Eq)]
pub struct RegisteredAgent {
    /// The symbol that the server gave the agent.
    pub symbol: String,
    /// The agent's headquarters, where the reply names them as a text.
    pub headquarters: Option<String>,
    /// The agent's credits, where the reply gives them as an integer.
    pub credits: Option<i64>,
}

pub struct RegisteredAgentView {
    pub symbol: Seq<char>,
    pub headquarters: Option<Seq<char>>,
    pub credits: Option<int>,
}

impl View for RegisteredAgent {
    type V = RegisteredAgentView;

    open spec fn view(&self) -> RegisteredAgentView {
        RegisteredAgentView {
            symbol: self.symbol@,
            headquarters: self.headquarters.deep_view(),
            credits: match self.credits {
                Some(credits) => Some(credits as int),
                None => None,
            },
        }
    }
}

impl DeepView for RegisteredAgent {
    type V = RegisteredAgentView;

    open spec fn deep_view(&self) -> RegisteredAgentView {
        self@
    }
}

/// The agent of a reply is an object with a text member `symbol`. Nothing
/// else is asked of it: `headquarters` and `credits` are taken where they
/// are a text and an integer, and count as absent otherwise.
impl Payload for RegisteredAgent {
    open spec fn shape(json: JsonView) -> Option<RegisteredAgentView> {
        match field::<String>(json, "symbol"@) {
            Some(symbol) => Some(
                RegisteredAgentView {
                    symbol,
                    headquarters: field::<String>(json, "headquarters"@),
                    credits: match field::<i64>(json, "credits"@) {
                        Some(credits) => Some(credits as int),
                        None => None,
                    },
                },
            ),
            None => None,
        }
    }

    fn from_json(json: &Json) -> (r: Option<RegisteredAgent>) {
        let symbol = read_field::<String>(json, "symbol")?;
        let headquarters = read_field::<String>(json, "headquarters");
        let credits = read_field::<i64>(json, "credits");
        Some(RegisteredAgent { symbol, headquarters, credits })
    }
}

/// What the registration endpoint answers.
#[derive(Debug, Clone, PartialEq, Eq)]
pub struct RegisterData {
    /// The credential of the new agent.
    pub token: String,
    pub agent: RegisteredAgent,
}

pub struct RegisterDataView {
    pub token: Seq<char>,
    pub agent: RegisteredAgentView,
}

impl RegisterDataView {
    /// The credential and the symbol of record.
    pub open spec fn registration(self) -> RegistrationView {
        RegistrationView { token: self.token, symbol: self.agent.symbol }
    }

    /// The lines that report a registration to the operator: the symbol,
    /// then the credits and the headquarters where the reply held them.
    pub open spec fn report(self) -> Seq<Seq<char>> {
        seq!["Successfully registered agent: "@ + self.agent.symbol] + match self.agent.credits {
            Some(credits) => seq!["Starting credits: "@ + decimal(credits)],
            None => seq![],
        } + match self.agent.headquarters {
            Some(headquarters) => seq!["Headquarters: "@ + headquarters],
            None => seq![],
        }
    }
}

impl View for RegisterData {
    type V = RegisterDataView;

    open spec fn view(&self) -> RegisterDataView {
        RegisterDataView { token: self.token@, agent: self.agent@ }
    }
}

impl DeepView for RegisterData {
    type V = RegisterDataView;

    open spec fn deep_view(&self) -> RegisterDataView {
        self@
    }
}

/// The reply is an object with a text member `token` and a member `agent`
/// that has the shape of [`RegisteredAgent`].
impl Payload for RegisterData {
    open spec fn shape(json: JsonView) -> Option<RegisterDataView> {
        match (field::<String>(json, "token"@), field::<RegisteredAgent>(json, "agent"@)) {
            (Some(token), Some(agent)) => Some(RegisterDataView { token, agent }),
            _ => None,
        }
    }

    fn from_json(json: &Json) -> (r: Option<RegisterData>) {
        let token = read_field::<String>(json, "token")?;
        let agent = read_field::<RegisteredAgent>(json, "agent")?;
        Some(RegisterData { token, agent })
    }
}

/// Reading a reply for the report changes nothing of its outcome: it gives
/// the credential and the symbol that [`SpaceTradersClient::register`]'s
/// reading gives, and fails where that fails, in the same way.
pub proof fn registration_outcomes_agree(reply: ReplyView)
    ensures
        match outcome::<RegisterData>(reply) {
            Ok(data) => outcome::<Registration>(reply) == Ok::<RegistrationView, ApiErrorView>(
                data.registration(),
            ),
            Err(e) => outcome::<Registration>(reply) == Err::<RegistrationView, ApiErrorView>(e),
        },
{
}

impl RegisterData {
    /// Reports the registration, one line of output per item.
    pub fn report(&self) -> (lines: Vec<String>)
        ensures
            lines.deep_view() == self@.report(),
    {
        let mut lines: Vec<String> = Vec::new();
        lines.push(labelled("Successfully registered agent: ", self.agent.symbol.as_str()));
        if let Some(credits) = self.agent.credits {
            lines.push(labelled_number("Starting credits: ", credits as i128));
        }
        if let Some(headquarters) = &self.agent.headquarters {
            lines.push(labelled("Headquarters: ", headquarters.as_str()));
        }
        lines
    }
}

/// The line that tells the operator that `agent_symbol` is being
/// registered.
pub fn announce_registration(agent_symbol: &str) -> (line: String)
    ensures
        line@ == "Registering new agent with symbol: "@ + agent_symbol@,
{
    labelled("Registering new agent with symbol: ", agent_symbol)
}

/// The request that registers a new agent under `agent_symbol`, authorized
/// with the credential of the account. Its reply is read by
/// [`registration_outcome`].
pub fn register_agent(account_token: &str, agent_symbol: &str) -> (r: Request)
    ensures
        r@ == request_for(
            Method::Post,
            account_token@,
            REGISTER_PATH@,
            Some(registration_body(agent_symbol@)),
        ),
{
    SpaceTradersClient::register(account_token, agent_symbol)
}

/// Turns the reply to a registration request into what it holds. The
/// credential and the symbol of record are `token` and `agent.symbol` of the
/// result: the ones that [`SpaceTradersClient::handle_registration`] gives
/// for the same reply.
pub fn registration_outcome(reply: Reply) -> (r: Result<RegisterData, ApiError>)
    ensures
        match r {
            Ok(data) => outcome::<Registration>(reply@) == Ok::<RegistrationView, ApiErrorView>(
                RegistrationView { token: data.token@, symbol: data.agent.symbol@ },
            ) && outcome::<RegisterData>(reply@) == Ok::<RegisterDataView, ApiErrorView>(data@),
            Err(e) => outcome::<Registration>(reply@) == Err::<RegistrationView, ApiErrorView>(e@)
                && outcome::<RegisterData>(reply@) == Err::<RegisterDataView, ApiErrorView>(e@),
        },
{
    proof {
        registration_outcomes_agree(reply@);
    }
    classify::<RegisterData>(reply)
}

} // verus!
