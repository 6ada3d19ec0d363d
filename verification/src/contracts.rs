//! Contracts between the agent and a faction.

use vstd::prelude::*;
use vstd::string::StringExecFns;

use crate::client::{
    classify, outcome, request_for, ApiError, ApiErrorView, Method, Reply, Request,
    SpaceTradersClient,
};
use crate::envelope::{field, optional, read_field, read_optional, Payload};
use crate::json::{Json, JsonView};
use crate::text::{decimal, decimal_text, labelled, labelled_number, push_line};

verus! {

/// The path of the endpoint that lists the agent's contracts.
pub const CONTRACTS_PATH: &'static str = "/my/contracts";

/// What the agent is paid for a contract.
#[derive(Debug, Clone, PartialEq, Eq)]
pub struct ContractPayment {
    pub on_accepted: i64,
    pub on_fulfilled: i64,
}

pub struct ContractPaymentView {
    pub on_accepted: int,
    pub on_fulfilled: int,
}

impl View for ContractPayment {
    type V = ContractPaymentView;

    open spec fn view(&self) -> ContractPaymentView {
        ContractPaymentView {
            on_accepted: self.on_accepted as int,
            on_fulfilled: self.on_fulfilled as int,
        }
    }
}

impl DeepView for ContractPayment {
    type V = ContractPaymentView;

    open spec fn deep_view(&self) -> ContractPaymentView {
        self@
    }
}

/// A payment is an object with the members `onAccepted` and `onFulfilled`.
impl Payload for ContractPayment {
    open spec fn shape(json: JsonView) -> Option<ContractPaymentView> {
        match (field::<i64>(json, "onAccepted"@), field::<i64>(json, "onFulfilled"@)) {
            (Some(on_accepted), Some(on_fulfilled)) => Some(
                ContractPaymentView {
                    on_accepted: on_accepted as int,
                    on_fulfilled: on_fulfilled as int,
                },
            ),
            _ => None,
        }
    }

    fn from_json(json: &Json) -> (r: Option<ContractPayment>) {
        let on_accepted = read_field::<i64>(json, "onAccepted")?;
        let on_fulfilled = read_field::<i64>(json, "onFulfilled")?;
        Some(ContractPayment { on_accepted, on_fulfilled })
    }
}

/// One good that a contract asks to be delivered.
#[derive(Debug, Clone, PartialEq, Eq)]
pub struct ContractDeliverGood {
    pub trade_symbol: String,
    pub destination_symbol: String,
    pub units_required: i32,
    pub units_fulfilled: i32,
}

pub struct ContractDeliverGoodView {
    pub trade_symbol: Seq<char>,
    pub destination_symbol: Seq<char>,
    pub units_required: int,
    pub units_fulfilled: int,
}

impl View for ContractDeliverGood {
    type V = ContractDeliverGoodView;

    open spec fn view(&self) -> ContractDeliverGoodView {
        ContractDeliverGoodView {
            trade_symbol: self.trade_symbol@,
            destination_symbol: self.destination_symbol@,
            units_required: self.units_required as int,
            units_fulfilled: self.units_fulfilled as int,
        }
    }
}

impl DeepView for ContractDeliverGood {
    type V = ContractDeliverGoodView;

    open spec fn deep_view(&self) -> ContractDeliverGoodView {
        self@
    }
}

/// A delivery is an object with the members `tradeSymbol`,
/// `destinationSymbol`, `unitsRequired` and `unitsFulfilled`.
impl Payload for ContractDeliverGood {
    open spec fn shape(json: JsonView) -> Option<ContractDeliverGoodView> {
        if field::<String>(json, "tradeSymbol"@) is Some
            && field::<String>(json, "destinationSymbol"@) is Some
            && field::<i32>(json, "unitsRequired"@) is Some
            && field::<i32>(json, "unitsFulfilled"@) is Some {
            Some(
                ContractDeliverGoodView {
                    trade_symbol: field::<String>(json, "tradeSymbol"@).unwrap(),
                    destination_symbol: field::<String>(json, "destinationSymbol"@).unwrap(),
                    units_required: field::<i32>(json, "unitsRequired"@).unwrap() as int,
                    units_fulfilled: field::<i32>(json, "unitsFulfilled"@).unwrap() as int,
                },
            )
        } else {
            None
        }
    }

    fn from_json(json: &Json) -> (r: Option<ContractDeliverGood>) {
        let trade_symbol = read_field::<String>(json, "tradeSymbol")?;
        let destination_symbol = read_field::<String>(json, "destinationSymbol")?;
        let units_required = read_field::<i32>(json, "unitsRequired")?;
        let units_fulfilled = read_field::<i32>(json, "unitsFulfilled")?;
        Some(
            ContractDeliverGood { trade_symbol, destination_symbol, units_required, units_fulfilled },
        )
    }
}

/// What has to be done to fulfil a contract.
#[derive(Debug, Clone, PartialEq, Eq)]
pub struct ContractTerms {
    pub deadline: String,
    pub payment: ContractPayment,
    pub deliver: Option<Vec<ContractDeliverGood>>,
}

pub struct ContractTermsView {
    pub deadline: Seq<char>,
    pub payment: ContractPaymentView,
    pub deliver: Option<Seq<ContractDeliverGoodView>>,
}

impl View for ContractTerms {
    type V = ContractTermsView;

    open spec fn view(&self) -> ContractTermsView {
        ContractTermsView {
            deadline: self.deadline@,
            payment: self.payment@,
            deliver: self.deliver.deep_view(),
        }
    }
}

impl DeepView for ContractTerms {
    type V = ContractTermsView;

    open spec fn deep_view(&self) -> ContractTermsView {
        self@
    }
}

/// Terms are an object with the members `deadline` and `payment`; `deliver`
/// may be left out.
impl Payload for ContractTerms {
    open spec fn shape(json: JsonView) -> Option<ContractTermsView> {
        if field::<String>(json, "deadline"@) is Some
            && field::<ContractPayment>(json, "payment"@) is Some
            && optional::<Vec<ContractDeliverGood>>(json, "deliver"@) is Some {
            Some(
                ContractTermsView {
                    deadline: field::<String>(json, "deadline"@).unwrap(),
                    payment: field::<ContractPayment>(json, "payment"@).unwrap(),
                    deliver: optional::<Vec<ContractDeliverGood>>(json, "deliver"@).unwrap(),
                },
            )
        } else {
            None
        }
    }

    fn from_json(json: &Json) -> (r: Option<ContractTerms>) {
        let deadline = read_field::<String>(json, "deadline")?;
        let payment = read_field::<ContractPayment>(json, "payment")?;
        let deliver = read_optional::<Vec<ContractDeliverGood>>(json, "deliver")?;
        Some(ContractTerms { deadline, payment, deliver })
    }
}

/// A contract between the agent and a faction.
#[derive(Debug, Clone, PartialEq, Eq)]
pub struct Contract {
    pub id: String,
    pub faction_symbol: String,
    pub contract_type: String,
    pub terms: ContractTerms,
    pub accepted: bool,
    pub fulfilled: bool,
    pub expiration: String,
    pub deadline_to_accept: Option<String>,
}

pub struct ContractView {
    pub id: Seq<char>,
    pub faction_symbol: Seq<char>,
    pub contract_type: Seq<char>,
    pub terms: ContractTermsView,
    pub accepted: bool,
    pub fulfilled: bool,
    pub expiration: Seq<char>,
    pub deadline_to_accept: Option<Seq<char>>,
}

impl View for Contract {
    type V = ContractView;

    open spec fn view(&self) -> ContractView {
        ContractView {
            id: self.id@,
            faction_symbol: self.faction_symbol@,
            contract_type: self.contract_type@,
            terms: self.terms@,
            accepted: self.accepted,
            fulfilled: self.fulfilled,
            expiration: self.expiration@,
            deadline_to_accept: self.deadline_to_accept.deep_view(),
        }
    }
}

impl DeepView for Contract {
    type V = ContractView;

    open spec fn deep_view(&self) -> ContractView {
        self@
    }
}

/// A contract is an object with the members `id`, `factionSymbol`, `type`,
/// `terms`, `accepted`, `fulfilled` and `expiration`; `deadlineToAccept` may
/// be left out.
impl Payload for Contract {
    open spec fn shape(json: JsonView) -> Option<ContractView> {
        if field::<String>(json, "id"@) is Some
            && field::<String>(json, "factionSymbol"@) is Some
            && field::<String>(json, "type"@) is Some
            && field::<ContractTerms>(json, "terms"@) is Some
            && field::<bool>(json, "accepted"@) is Some
            && field::<bool>(json, "fulfilled"@) is Some
            && field::<String>(json, "expiration"@) is Some
            && optional::<String>(json, "deadlineToAccept"@) is Some {
            Some(
                ContractView {
                    id: field::<String>(json, "id"@).unwrap(),
                    faction_symbol: field::<String>(json, "factionSymbol"@).unwrap(),
                    contract_type: field::<String>(json, "type"@).unwrap(),
                    terms: field::<ContractTerms>(json, "terms"@).unwrap(),
                    accepted: field::<bool>(json, "accepted"@).unwrap(),
                    fulfilled: field::<bool>(json, "fulfilled"@).unwrap(),
                    expiration: field::<String>(json, "expiration"@).unwrap(),
                    deadline_to_accept: optional::<String>(json, "deadlineToAccept"@).unwrap(),
                },
            )
        } else {
            None
        }
    }

    fn from_json(json: &Json) -> (r: Option<Contract>) {
        let id = read_field::<String>(json, "id")?;
        let faction_symbol = read_field::<String>(json, "factionSymbol")?;
        let contract_type = read_field::<String>(json, "type")?;
        let terms = read_field::<ContractTerms>(json, "terms")?;
        let accepted = read_field::<bool>(json, "accepted")?;
        let fulfilled = read_field::<bool>(json, "fulfilled")?;
        let expiration = read_field::<String>(json, "expiration")?;
        let deadline_to_accept = read_optional::<String>(json, "deadlineToAccept")?;
        Some(
            Contract {
                id,
                faction_symbol,
                contract_type,
                terms,
                accepted,
                fulfilled,
                expiration,
                deadline_to_accept,
            },
        )
    }
}

impl ContractDeliverGoodView {
    /// The line that describes one delivery.
    pub open spec fn line(self) -> Seq<char> {
        "  - "@ + self.trade_symbol + ": "@ + decimal(self.units_fulfilled) + "/"@ + decimal(
            self.units_required,
        ) + " units to "@ + self.destination_symbol
    }
}

impl ContractView {
    /// How far the contract has come.
    pub open spec fn status(self) -> Seq<char> {
        if self.accepted {
            if self.fulfilled {
                "Fulfilled"@
            } else {
                "Accepted"@
            }
        } else {
            "Pending Acceptance"@
        }
    }

    /// The lines on the contract itself.
    pub open spec fn heading(self) -> Seq<Seq<char>> {
        seq![
            ""@,
            "=== Contract "@ + self.id + " ==="@,
            "Faction: "@ + self.faction_symbol,
            "Type: "@ + self.contract_type,
            "Status: "@ + self.status(),
        ] + match self.deadline_to_accept {
            Some(deadline) if !self.accepted => seq!["Accept By: "@ + deadline],
            _ => seq![],
        }
    }

    /// The lines on the payment and the deadline. The total is the sum of
    /// the two payments.
    pub open spec fn payment(self) -> Seq<Seq<char>> {
        seq![
            ""@,
            "Payment:"@,
            "  On Acceptance: "@ + decimal(self.terms.payment.on_accepted) + " credits"@,
            "  On Fulfillment: "@ + decimal(self.terms.payment.on_fulfilled) + " credits"@,
            "  Total: "@ + decimal(self.terms.payment.on_accepted + self.terms.payment.on_fulfilled)
                + " credits"@,
            "Deadline: "@ + self.terms.deadline,
        ]
    }

    /// The lines on the deliveries: none where the contract asks for none.
    pub open spec fn deliveries(self) -> Seq<Seq<char>> {
        match self.terms.deliver {
            Some(goods) if goods.len() > 0 => seq![""@, "Delivery Requirements:"@] + Seq::new(
                goods.len(),
                |i: int| goods[i].line(),
            ),
            _ => seq![],
        }
    }

    /// The lines that describe the contract to an operator.
    pub open spec fn lines(self) -> Seq<Seq<char>> {
        self.heading() + self.payment() + self.deliveries()
    }
}

impl ContractDeliverGood {
    /// Describes the delivery in one line.
    pub fn line(&self) -> (line: String)
        ensures
            line@ == self@.line(),
    {
        let fulfilled = decimal_text(self.units_fulfilled as i128);
        let required = decimal_text(self.units_required as i128);
        String::from_str("  - ").concat(self.trade_symbol.as_str()).concat(": ").concat(
            fulfilled.as_str(),
        ).concat("/").concat(required.as_str()).concat(" units to ").concat(
            self.destination_symbol.as_str(),
        )
    }
}

impl Contract {
    /// Describes the contract, one line of output per item.
    pub fn display(&self) -> (lines: Vec<String>)
        ensures
            lines.deep_view() == self@.lines(),
    {
        let mut lines: Vec<String> = Vec::new();
        lines.push(String::from_str(""));
        lines.push(String::from_str("=== Contract ").concat(self.id.as_str()).concat(" ==="));
        lines.push(labelled("Faction: ", self.faction_symbol.as_str()));
        lines.push(labelled("Type: ", self.contract_type.as_str()));
        let status = if self.accepted {
            if self.fulfilled {
                "Fulfilled"
            } else {
                "Accepted"
            }
        } else {
            "Pending Acceptance"
        };
        lines.push(labelled("Status: ", status));
        if let Some(deadline) = &self.deadline_to_accept {
            if !self.accepted {
                lines.push(labelled("Accept By: ", deadline.as_str()));
            }
        }

        let payment = &self.terms.payment;
        let total: i128 = payment.on_accepted as i128 + payment.on_fulfilled as i128;
        lines.push(String::from_str(""));
        lines.push(String::from_str("Payment:"));
        lines.push(labelled_number("  On Acceptance: ", payment.on_accepted as i128).concat(" credits"));
        lines.push(
            labelled_number("  On Fulfillment: ", payment.on_fulfilled as i128).concat(" credits"),
        );
        lines.push(labelled_number("  Total: ", total).concat(" credits"));
        lines.push(labelled("Deadline: ", self.terms.deadline.as_str()));

        if let Some(goods) = &self.terms.deliver {
            if goods.len() > 0 {
                let ghost wanted = goods.deep_view();
                lines.push(String::from_str(""));
                lines.push(String::from_str("Delivery Requirements:"));
                let ghost title = lines.deep_view();
                let mut i: usize = 0;
                while i < goods.len()
                    invariant
                        i <= goods.len(),
                        wanted == goods.deep_view(),
                        lines.deep_view() == title + Seq::new(
                            i as nat,
                            |k: int| wanted[k].line(),
                        ),
                    decreases goods.len() - i,
                {
                    let line = goods[i].line();
                    push_line(&mut lines, line);
                    i += 1;
                }
            }
        }
        lines
    }
}

/// The answer to accepting or negotiating a contract: the contract
/// stands under the member `contract`.
#[derive(Debug, Clone, PartialEq, Eq)]
pub struct ContractReply {
    pub contract: Contract,
}

impl View for ContractReply {
    type V = ContractView;

    open spec fn view(&self) -> ContractView {
        self.contract@
    }
}

impl DeepView for ContractReply {
    type V = ContractView;

    open spec fn deep_view(&self) -> ContractView {
        self.contract@
    }
}

impl Payload for ContractReply {
    open spec fn shape(json: JsonView) -> Option<ContractView> {
        field::<Contract>(json, "contract"@)
    }

    fn from_json(json: &Json) -> (r: Option<ContractReply>) {
        let contract = read_field::<Contract>(json, "contract")?;
        Some(ContractReply { contract })
    }
}

/// The request that lists the agent's contracts. Its reply holds a
/// `Vec<Contract>`.
pub fn list_contracts(client: &SpaceTradersClient) -> (r: Request)
    ensures
        r@ == request_for(Method::Get, client.credential(), CONTRACTS_PATH@, None),
{
    client.get(CONTRACTS_PATH)
}

/// The path of the endpoint that accepts the contract `contract_id`.
pub open spec fn accept_path(contract_id: Seq<char>) -> Seq<char> {
    "/my/contracts/"@ + contract_id + "/accept"@
}

/// The path of the endpoint that negotiates a contract with the ship
/// `ship_symbol`.
pub open spec fn negotiate_path(ship_symbol: Seq<char>) -> Seq<char> {
    "/my/ships/"@ + ship_symbol + "/negotiate/contract"@
}

/// The request that accepts a contract. Its reply is read by
/// [`contract_outcome`].
pub fn accept_contract(client: &SpaceTradersClient, contract_id: &str) -> (r: Request)
    ensures
        r@ == request_for(Method::Post, client.credential(), accept_path(contract_id@), None),
{
    let path = String::from_str("/my/contracts/").concat(contract_id).concat("/accept");
    client.post(path.as_str())
}

/// The request that negotiates a new contract through a ship. Its reply is
/// read by [`contract_outcome`].
pub fn negotiate_contract(client: &SpaceTradersClient, ship_symbol: &str) -> (r: Request)
    ensures
        r@ == request_for(Method::Post, client.credential(), negotiate_path(ship_symbol@), None),
{
    let path = String::from_str("/my/ships/").concat(ship_symbol).concat("/negotiate/contract");
    client.post(path.as_str())
}

/// Turns the reply to accepting or negotiating a contract into the
/// contract.
pub fn contract_outcome(reply: Reply) -> (r: Result<Contract, ApiError>)
    ensures
        match r {
            Ok(contract) => outcome::<ContractReply>(reply@) == Ok::<ContractView, ApiErrorView>(
                contract@,
            ),
            Err(e) => outcome::<ContractReply>(reply@) == Err::<ContractView, ApiErrorView>(e@),
        },
{
    match classify::<ContractReply>(reply) {
        Ok(answer) => Ok(answer.contract),
        Err(e) => Err(e),
    }
}

} // verus!
