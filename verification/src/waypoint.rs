//! Waypoints: the places of a system.

use vstd::prelude::*;
use vstd::string::{StrSliceExecFns, StringExecFns};

use crate::client::{build_request, request_for, Method, Request};
use crate::envelope::{field, optional, read_field, read_optional, Payload};
use crate::json::{Json, JsonView};
use crate::text::{decimal, decimal_text, join_blocks, labelled, push_line};

verus! {

/// A waypoint that orbits another.
#[derive(Debug, Clone, PartialEq, Eq)]
pub struct WaypointOrbital {
    pub symbol: String,
}

pub struct WaypointOrbitalView {
    pub symbol: Seq<char>,
}

impl View for WaypointOrbital {
    type V = WaypointOrbitalView;

    open spec fn view(&self) -> WaypointOrbitalView {
        WaypointOrbitalView { symbol: self.symbol@ }
    }
}

impl DeepView for WaypointOrbital {
    type V = WaypointOrbitalView;

    open spec fn deep_view(&self) -> WaypointOrbitalView {
        self@
    }
}

/// An orbital is an object with the member `symbol`.
impl Payload for WaypointOrbital {
    open spec fn shape(json: JsonView) -> Option<WaypointOrbitalView> {
        match field::<String>(json, "symbol"@) {
            Some(symbol) => Some(WaypointOrbitalView { symbol }),
            None => None,
        }
    }

    fn from_json(json: &Json) -> (r: Option<WaypointOrbital>) {
        let symbol = read_field::<String>(json, "symbol")?;
        Some(WaypointOrbital { symbol })
    }
}

/// The faction that controls a waypoint.
#[derive(Debug, Clone, PartialEq, Eq)]
pub struct WaypointFaction {
    pub symbol: String,
}

pub struct WaypointFactionView {
    pub symbol: Seq<char>,
}

impl View for WaypointFaction {
    type V = WaypointFactionView;

    open spec fn view(&self) -> WaypointFactionView {
        WaypointFactionView { symbol: self.symbol@ }
    }
}

impl DeepView for WaypointFaction {
    type V = WaypointFactionView;

    open spec fn deep_view(&self) -> WaypointFactionView {
        self@
    }
}

/// A faction is an object with the member `symbol`.
impl Payload for WaypointFaction {
    open spec fn shape(json: JsonView) -> Option<WaypointFactionView> {
        match field::<String>(json, "symbol"@) {
            Some(symbol) => Some(WaypointFactionView { symbol }),
            None => None,
        }
    }

    fn from_json(json: &Json) -> (r: Option<WaypointFaction>) {
        let symbol = read_field::<String>(json, "symbol")?;
        Some(WaypointFaction { symbol })
    }
}

/// The two lines that describe a trait or a modifier.
pub open spec fn described(name: Seq<char>, symbol: Seq<char>, description: Seq<char>) -> Seq<
    Seq<char>,
> {
    seq!["  - "@ + name + " ("@ + symbol + ")"@, "    "@ + description]
}

/// The object with the members `symbol`, `name` and `description` that both
/// a trait and a modifier are written as.
pub open spec fn described_shape(json: JsonView) -> Option<(Seq<char>, Seq<char>, Seq<char>)> {
    match (
        field::<String>(json, "symbol"@),
        field::<String>(json, "name"@),
        field::<String>(json, "description"@),
    ) {
        (Some(symbol), Some(name), Some(description)) => Some((symbol, name, description)),
        _ => None,
    }
}

fn read_described(json: &Json) -> (r: Option<(String, String, String)>)
    ensures
        r.deep_view() == described_shape(json@),
{
    let symbol = read_field::<String>(json, "symbol")?;
    let name = read_field::<String>(json, "name")?;
    let description = read_field::<String>(json, "description")?;
    Some((symbol, name, description))
}

fn push_described(lines: &mut Vec<String>, name: &str, symbol: &str, description: &str)
    ensures
        final(lines).deep_view() == old(lines).deep_view() + described(
            name@,
            symbol@,
            description@,
        ),
{
    let head = String::from_str("  - ").concat(name).concat(" (").concat(symbol).concat(")");
    push_line(lines, head);
    push_line(lines, labelled("    ", description));
}

/// A characteristic of a waypoint.
#[derive(Debug, Clone, PartialEq, Eq)]
pub struct WaypointTrait {
    pub symbol: String,
    pub name: String,
    pub description: String,
}

pub struct WaypointTraitView {
    pub symbol: Seq<char>,
    pub name: Seq<char>,
    pub description: Seq<char>,
}

impl WaypointTraitView {
    /// The lines that describe the trait.
    pub open spec fn lines(self) -> Seq<Seq<char>> {
        described(self.name, self.symbol, self.description)
    }
}

impl View for WaypointTrait {
    type V = WaypointTraitView;

    open spec fn view(&self) -> WaypointTraitView {
        WaypointTraitView {
            symbol: self.symbol@,
            name: self.name@,
            description: self.description@,
        }
    }
}

impl DeepView for WaypointTrait {
    type V = WaypointTraitView;

    open spec fn deep_view(&self) -> WaypointTraitView {
        self@
    }
}

/// A trait is an object with the members `symbol`, `name` and `description`.
impl Payload for WaypointTrait {
    open spec fn shape(json: JsonView) -> Option<WaypointTraitView> {
        match described_shape(json) {
            Some((symbol, name, description)) => Some(
                WaypointTraitView { symbol, name, description },
            ),
            None => None,
        }
    }

    fn from_json(json: &Json) -> (r: Option<WaypointTrait>) {
        let (symbol, name, description) = read_described(json)?;
        Some(WaypointTrait { symbol, name, description })
    }
}

/// Something that changes how a waypoint behaves.
#[derive(Debug, Clone, PartialEq, Eq)]
pub struct WaypointModifier {
    pub symbol: String,
    pub name: String,
    pub description: String,
}

pub struct WaypointModifierView {
    pub symbol: Seq<char>,
    pub name: Seq<char>,
    pub description: Seq<char>,
}

impl WaypointModifierView {
    /// The lines that describe the modifier.
    pub open spec fn lines(self) -> Seq<Seq<char>> {
        described(self.name, self.symbol, self.description)
    }
}

impl View for WaypointModifier {
    type V = WaypointModifierView;

    open spec fn view(&self) -> WaypointModifierView {
        WaypointModifierView {
            symbol: self.symbol@,
            name: self.name@,
            description: self.description@,
        }
    }
}

impl DeepView for WaypointModifier {
    type V = WaypointModifierView;

    open spec fn deep_view(&self) -> WaypointModifierView {
        self@
    }
}

/// A modifier is an object with the members `symbol`, `name` and
/// `description`.
impl Payload for WaypointModifier {
    open spec fn shape(json: JsonView) -> Option<WaypointModifierView> {
        match described_shape(json) {
            Some((symbol, name, description)) => Some(
                WaypointModifierView { symbol, name, description },
            ),
            None => None,
        }
    }

    fn from_json(json: &Json) -> (r: Option<WaypointModifier>) {
        let (symbol, name, description) = read_described(json)?;
        Some(WaypointModifier { symbol, name, description })
    }
}

/// Who charted a waypoint, and when.
#[derive(Debug, Clone, PartialEq, Eq)]
pub struct Chart {
    pub waypoint_symbol: Option<String>,
    pub submitted_by: Option<String>,
    pub submitted_on: Option<String>,
}

pub struct ChartView {
    pub waypoint_symbol: Option<Seq<char>>,
    pub submitted_by: Option<Seq<char>>,
    pub submitted_on: Option<Seq<char>>,
}

impl View for Chart {
    type V = ChartView;

    open spec fn view(&self) -> ChartView {
        ChartView {
            waypoint_symbol: self.waypoint_symbol.deep_view(),
            submitted_by: self.submitted_by.deep_view(),
            submitted_on: self.submitted_on.deep_view(),
        }
    }
}

impl DeepView for Chart {
    type V = ChartView;

    open spec fn deep_view(&self) -> ChartView {
        self@
    }
}

/// A chart is an object; each of `waypointSymbol`, `submittedBy` and
/// `submittedOn` may be left out.
impl Payload for Chart {
    open spec fn shape(json: JsonView) -> Option<ChartView> {
        if json is Object
            && optional::<String>(json, "waypointSymbol"@) is Some
            && optional::<String>(json, "submittedBy"@) is Some
            && optional::<String>(json, "submittedOn"@) is Some {
            Some(
                ChartView {
                    waypoint_symbol: optional::<String>(json, "waypointSymbol"@).unwrap(),
                    submitted_by: optional::<String>(json, "submittedBy"@).unwrap(),
                    submitted_on: optional::<String>(json, "submittedOn"@).unwrap(),
                },
            )
        } else {
            None
        }
    }

    fn from_json(json: &Json) -> (r: Option<Chart>) {
        if !json.is_object() {
            return None;
        }
        let waypoint_symbol = read_optional::<String>(json, "waypointSymbol")?;
        let submitted_by = read_optional::<String>(json, "submittedBy")?;
        let submitted_on = read_optional::<String>(json, "submittedOn")?;
        Some(Chart { waypoint_symbol, submitted_by, submitted_on })
    }
}

/// What the API tells of a waypoint.
#[derive(Debug, Clone, PartialEq, Eq)]
pub struct Waypoint {
    pub symbol: String,
    pub waypoint_type: String,
    pub system_symbol: String,
    pub x: i32,
    pub y: i32,
    pub orbitals: Vec<WaypointOrbital>,
    pub traits: Vec<WaypointTrait>,
    pub is_under_construction: bool,
    pub orbits: Option<String>,
    pub faction: Option<WaypointFaction>,
    pub modifiers: Option<Vec<WaypointModifier>>,
    pub chart: Option<Chart>,
}

pub struct WaypointView {
    pub symbol: Seq<char>,
    pub waypoint_type: Seq<char>,
    pub system_symbol: Seq<char>,
    pub x: int,
    pub y: int,
    pub orbitals: Seq<WaypointOrbitalView>,
    pub traits: Seq<WaypointTraitView>,
    pub is_under_construction: bool,
    pub orbits: Option<Seq<char>>,
    pub faction: Option<WaypointFactionView>,
    pub modifiers: Option<Seq<WaypointModifierView>>,
    pub chart: Option<ChartView>,
}

impl View for Waypoint {
    type V = WaypointView;

    open spec fn view(&self) -> WaypointView {
        WaypointView {
            symbol: self.symbol@,
            waypoint_type: self.waypoint_type@,
            system_symbol: self.system_symbol@,
            x: self.x as int,
            y: self.y as int,
            orbitals: self.orbitals.deep_view(),
            traits: self.traits.deep_view(),
            is_under_construction: self.is_under_construction,
            orbits: self.orbits.deep_view(),
            faction: self.faction.deep_view(),
            modifiers: self.modifiers.deep_view(),
            chart: self.chart.deep_view(),
        }
    }
}

impl DeepView for Waypoint {
    type V = WaypointView;

    open spec fn deep_view(&self) -> WaypointView {
        self@
    }
}

/// A waypoint is an object with the members `symbol`, `type`,
/// `systemSymbol`, `x`, `y`, `orbitals`, `traits` and `isUnderConstruction`;
/// `orbits`, `faction`, `modifiers` and `chart` may be left out.
impl Payload for Waypoint {
    open spec fn shape(json: JsonView) -> Option<WaypointView> {
        if field::<String>(json, "symbol"@) is Some
            && field::<String>(json, "type"@) is Some
            && field::<String>(json, "systemSymbol"@) is Some
            && field::<i32>(json, "x"@) is Some
            && field::<i32>(json, "y"@) is Some
            && field::<Vec<WaypointOrbital>>(json, "orbitals"@) is Some
            && field::<Vec<WaypointTrait>>(json, "traits"@) is Some
            && field::<bool>(json, "isUnderConstruction"@) is Some
            && optional::<String>(json, "orbits"@) is Some
            && optional::<WaypointFaction>(json, "faction"@) is Some
            && optional::<Vec<WaypointModifier>>(json, "modifiers"@) is Some
            && optional::<Chart>(json, "chart"@) is Some {
            Some(
                WaypointView {
                    symbol: field::<String>(json, "symbol"@).unwrap(),
                    waypoint_type: field::<String>(json, "type"@).unwrap(),
                    system_symbol: field::<String>(json, "systemSymbol"@).unwrap(),
                    x: field::<i32>(json, "x"@).unwrap() as int,
                    y: field::<i32>(json, "y"@).unwrap() as int,
                    orbitals: field::<Vec<WaypointOrbital>>(json, "orbitals"@).unwrap(),
                    traits: field::<Vec<WaypointTrait>>(json, "traits"@).unwrap(),
                    is_under_construction: field::<bool>(json, "isUnderConstruction"@).unwrap(),
                    orbits: optional::<String>(json, "orbits"@).unwrap(),
                    faction: optional::<WaypointFaction>(json, "faction"@).unwrap(),
                    modifiers: optional::<Vec<WaypointModifier>>(json, "modifiers"@).unwrap(),
                    chart: optional::<Chart>(json, "chart"@).unwrap(),
                },
            )
        } else {
            None
        }
    }

    fn from_json(json: &Json) -> (r: Option<Waypoint>) {
        let symbol = read_field::<String>(json, "symbol")?;
        let waypoint_type = read_field::<String>(json, "type")?;
        let system_symbol = read_field::<String>(json, "systemSymbol")?;
        let x = read_field::<i32>(json, "x")?;
        let y = read_field::<i32>(json, "y")?;
        let orbitals = read_field::<Vec<WaypointOrbital>>(json, "orbitals")?;
        let traits = read_field::<Vec<WaypointTrait>>(json, "traits")?;
        let is_under_construction = read_field::<bool>(json, "isUnderConstruction")?;
        let orbits = read_optional::<String>(json, "orbits")?;
        let faction = read_optional::<WaypointFaction>(json, "faction")?;
        let modifiers = read_optional::<Vec<WaypointModifier>>(json, "modifiers")?;
        let chart = read_optional::<Chart>(json, "chart")?;
        Some(
            Waypoint {
                symbol,
                waypoint_type,
                system_symbol,
                x,
                y,
                orbitals,
                traits,
                is_under_construction,
                orbits,
                faction,
                modifiers,
                chart,
            },
        )
    }
}

/// `true` or `false`, as text.
pub open spec fn truth(b: bool) -> Seq<char> {
    if b {
        "true"@
    } else {
        "false"@
    }
}

impl WaypointView {
    /// The lines on the waypoint itself.
    pub open spec fn heading(self) -> Seq<Seq<char>> {
        seq![
            ""@,
            "=== Waypoint Information ==="@,
            "Symbol: "@ + self.symbol,
            "Type: "@ + self.waypoint_type,
            "System: "@ + self.system_symbol,
            "Coordinates: ("@ + decimal(self.x) + ", "@ + decimal(self.y) + ")"@,
        ] + match self.orbits {
            Some(orbits) => seq!["Orbits: "@ + orbits],
            None => seq![],
        } + match self.faction {
            Some(faction) => seq!["Faction: "@ + faction.symbol],
            None => seq![],
        } + seq!["Under Construction: "@ + truth(self.is_under_construction)]
    }

    /// The lines on the orbitals: none where the waypoint has none.
    pub open spec fn orbital_lines(self) -> Seq<Seq<char>> {
        if self.orbitals.len() > 0 {
            seq![""@, "Orbitals:"@] + Seq::new(
                self.orbitals.len(),
                |i: int| "  - "@ + self.orbitals[i].symbol,
            )
        } else {
            seq![]
        }
    }

    /// The lines on the traits: none where the waypoint has none.
    pub open spec fn trait_lines(self) -> Seq<Seq<char>> {
        if self.traits.len() > 0 {
            seq![""@, "Traits:"@] + join_blocks(
                Seq::new(self.traits.len(), |i: int| self.traits[i].lines()),
            )
        } else {
            seq![]
        }
    }

    /// The lines on the modifiers: none where the waypoint has none.
    pub open spec fn modifier_lines(self) -> Seq<Seq<char>> {
        match self.modifiers {
            Some(modifiers) if modifiers.len() > 0 => seq![""@, "Modifiers:"@] + join_blocks(
                Seq::new(modifiers.len(), |i: int| modifiers[i].lines()),
            ),
            _ => seq![],
        }
    }

    /// The lines that describe the waypoint to an operator.
    pub open spec fn lines(self) -> Seq<Seq<char>> {
        self.heading() + self.orbital_lines() + self.trait_lines() + self.modifier_lines()
    }
}

impl Waypoint {
    fn push_heading(&self, lines: &mut Vec<String>)
        requires
            old(lines).deep_view() == Seq::<Seq<char>>::empty(),
        ensures
            final(lines).deep_view() == self@.heading(),
    {
        lines.push(String::from_str(""));
        lines.push(String::from_str("=== Waypoint Information ==="));
        lines.push(labelled("Symbol: ", self.symbol.as_str()));
        lines.push(labelled("Type: ", self.waypoint_type.as_str()));
        lines.push(labelled("System: ", self.system_symbol.as_str()));
        let x = decimal_text(self.x as i128);
        let y = decimal_text(self.y as i128);
        lines.push(
            String::from_str("Coordinates: (").concat(x.as_str()).concat(", ").concat(
                y.as_str(),
            ).concat(")"),
        );
        if let Some(orbits) = &self.orbits {
            lines.push(labelled("Orbits: ", orbits.as_str()));
        }
        if let Some(faction) = &self.faction {
            lines.push(labelled("Faction: ", faction.symbol.as_str()));
        }
        let truth = if self.is_under_construction {
            "true"
        } else {
            "false"
        };
        lines.push(labelled("Under Construction: ", truth));
    }

    fn push_orbitals(&self, lines: &mut Vec<String>)
        ensures
            final(lines).deep_view() == old(lines).deep_view() + self@.orbital_lines(),
    {
        if self.orbitals.len() > 0 {
            let ghost wanted = self.orbitals.deep_view();
            push_line(lines, String::from_str(""));
            push_line(lines, String::from_str("Orbitals:"));
            let ghost title = lines.deep_view();
            let mut i: usize = 0;
            while i < self.orbitals.len()
                invariant
                    i <= self.orbitals.len(),
                    wanted == self.orbitals.deep_view(),
                    lines.deep_view() == title + Seq::new(
                        i as nat,
                        |k: int| "  - "@ + wanted[k].symbol,
                    ),
                decreases self.orbitals.len() - i,
            {
                push_line(lines, labelled("  - ", self.orbitals[i].symbol.as_str()));
                i += 1;
            }
        }
    }

    fn push_traits(&self, lines: &mut Vec<String>)
        ensures
            final(lines).deep_view() == old(lines).deep_view() + self@.trait_lines(),
    {
        if self.traits.len() > 0 {
            let ghost wanted = self.traits.deep_view();
            push_line(lines, String::from_str(""));
            push_line(lines, String::from_str("Traits:"));
            let ghost title = lines.deep_view();
            let mut i: usize = 0;
            while i < self.traits.len()
                invariant
                    i <= self.traits.len(),
                    wanted == self.traits.deep_view(),
                    lines.deep_view() == title + join_blocks(
                        Seq::new(i as nat, |k: int| wanted[k].lines()),
                    ),
                decreases self.traits.len() - i,
            {
                let item = &self.traits[i];
                push_described(
                    lines,
                    item.name.as_str(),
                    item.symbol.as_str(),
                    item.description.as_str(),
                );
                i += 1;
                proof {
                    let blocks = Seq::new(i as nat, |k: int| wanted[k].lines());
                    assert(blocks.drop_last() =~= Seq::new(
                        (i - 1) as nat,
                        |k: int| wanted[k].lines(),
                    ));
                }
            }
        }
    }

    fn push_modifiers(&self, lines: &mut Vec<String>)
        ensures
            final(lines).deep_view() == old(lines).deep_view() + self@.modifier_lines(),
    {
        if let Some(modifiers) = &self.modifiers {
            if modifiers.len() > 0 {
                let ghost wanted = modifiers.deep_view();
                push_line(lines, String::from_str(""));
                push_line(lines, String::from_str("Modifiers:"));
                let ghost title = lines.deep_view();
                let mut i: usize = 0;
                while i < modifiers.len()
                    invariant
                        i <= modifiers.len(),
                        wanted == modifiers.deep_view(),
                        lines.deep_view() == title + join_blocks(
                            Seq::new(i as nat, |k: int| wanted[k].lines()),
                        ),
                    decreases modifiers.len() - i,
                {
                    let item = &modifiers[i];
                    push_described(
                        lines,
                        item.name.as_str(),
                        item.symbol.as_str(),
                        item.description.as_str(),
                    );
                    i += 1;
                    proof {
                        let blocks = Seq::new(i as nat, |k: int| wanted[k].lines());
                        assert(blocks.drop_last() =~= Seq::new(
                            (i - 1) as nat,
                            |k: int| wanted[k].lines(),
                        ));
                    }
                }
            }
        }
    }

    /// Describes the waypoint, one line of output per item.
    pub fn display(&self) -> (lines: Vec<String>)
        ensures
            lines.deep_view() == self@.lines(),
    {
        let mut lines: Vec<String> = Vec::new();
        assert(lines.deep_view() =~= Seq::<Seq<char>>::empty());
        self.push_heading(&mut lines);
        self.push_orbitals(&mut lines);
        self.push_traits(&mut lines);
        self.push_modifiers(&mut lines);
        lines
    }
}

/// The path of the endpoint that describes one waypoint of a system.
pub open spec fn waypoint_path(system_symbol: Seq<char>, waypoint_symbol: Seq<char>) -> Seq<char> {
    "/systems/"@ + system_symbol + "/waypoints/"@ + waypoint_symbol
}

/// The request that asks for a waypoint, authorized with `agent_token`. Its
/// reply holds a [`Waypoint`].
pub fn fetch_waypoint(agent_token: &str, system_symbol: &str, waypoint_symbol: &str) -> (r:
    Request)
    ensures
        r@ == request_for(
            Method::Get,
            agent_token@,
            waypoint_path(system_symbol@, waypoint_symbol@),
            None,
        ),
{
    let path = String::from_str("/systems/").concat(system_symbol).concat("/waypoints/").concat(
        waypoint_symbol,
    );
    build_request(Method::Get, agent_token, path.as_str(), None)
}

/// Tells whether `i` is the place of the last `-` in `text`.
pub open spec fn is_last_dash(text: Seq<char>, i: int) -> bool {
    &&& 0 <= i < text.len()
    &&& text[i] == '-'
    &&& forall|j: int| i < j < text.len() ==> text[j] != '-'
}

/// The symbol of the system that a waypoint lies in: what stands before the
/// last `-` of the waypoint's symbol, and the whole symbol where it has no
/// `-`.
pub fn system_symbol(waypoint_symbol: &str) -> (system: &str)
    ensures
        forall|i: int| is_last_dash(waypoint_symbol@, i) ==> system@ == waypoint_symbol@.subrange(0, i),
        !waypoint_symbol@.contains('-') ==> system@ == waypoint_symbol@,
{
    let n = waypoint_symbol.unicode_len();
    let mut i: usize = n;
    while i > 0
        invariant
            i <= n,
            n == waypoint_symbol@.len(),
            forall|j: int| i <= j < n ==> waypoint_symbol@[j] != '-',
        decreases i,
    {
        if waypoint_symbol.get_char(i - 1) == '-' {
            return waypoint_symbol.substring_char(0, i - 1);
        }
        i -= 1;
    }
    waypoint_symbol
}

} // verus!
