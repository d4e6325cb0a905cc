//! The tools that are exposed over the Model Context Protocol (MCP), and
//! those that must never be.
//!
//! | Tool               | Request                | Mutating | Confirmation |
//! |--------------------|------------------------|----------|--------------|
//! | `query_balance`    | `Query::Balance`       | no       | never        |
//! | `query_intent`     | `Query::IntentStatus`  | no       | never        |
//! | `query_contract`   | `Query::ContractState` | no       | never        |
//! | `simulate_intent`  | `SimulateIntent`       | no       | never        |
//! | `execute_plan`     | `ExecutePlan`          | yes      | conditional  |
//! | `query_provenance` | `QueryProvenance`      | no       | never        |

use vstd::prelude::*;
use vstd::string::*;

use crate::primitives::text::text_eq;

verus! {

/// A tool that may be called.
#[derive(Debug, Clone, Copy, PartialEq, Eq, Hash, Structural)]
pub enum McpToolKind {
    /// Query account balance.
    QueryBalance,
    /// Query intent or transaction status.
    QueryIntent,
    /// Query contract state.
    QueryContract,
    /// Simulate an intent without executing it.
    SimulateIntent,
    /// Execute a confirmed plan.
    ExecutePlan,
    /// Query the provenance audit trail.
    QueryProvenance,
}

/// The name by which clients call a tool.
pub open spec fn tool_name_of(kind: McpToolKind) -> Seq<char> {
    match kind {
        McpToolKind::QueryBalance => "query_balance"@,
        McpToolKind::QueryIntent => "query_intent"@,
        McpToolKind::QueryContract => "query_contract"@,
        McpToolKind::SimulateIntent => "simulate_intent"@,
        McpToolKind::ExecutePlan => "execute_plan"@,
        McpToolKind::QueryProvenance => "query_provenance"@,
    }
}

/// What the tool listing says of a tool.
pub open spec fn description_of(kind: McpToolKind) -> Seq<char> {
    match kind {
        McpToolKind::QueryBalance => "Query the balance of an account for a given token."@,
        McpToolKind::QueryIntent => {
            "Query the status of an intent or transaction by digest."@
        },
        McpToolKind::QueryContract => "Query contract state by address and resource tag."@,
        McpToolKind::SimulateIntent => {
            "Simulate an intent without executing it. Returns a plan_hash for later execution."@
        },
        McpToolKind::ExecutePlan => {
            "Execute a previously simulated and confirmed plan, bound by plan_hash."@
        },
        McpToolKind::QueryProvenance => {
            "Query the provenance audit trail by agent, session, capability, or transaction."@
        },
    }
}

/// Every tool, in the order in which tools are listed.
pub open spec fn all_tools() -> Seq<McpToolKind> {
    seq![
        McpToolKind::QueryBalance,
        McpToolKind::QueryIntent,
        McpToolKind::QueryContract,
        McpToolKind::SimulateIntent,
        McpToolKind::ExecutePlan,
        McpToolKind::QueryProvenance,
    ]
}

impl McpToolKind {
    /// The name by which clients call this tool.
    pub fn tool_name(self) -> (r: &'static str)
        ensures
            r@ == tool_name_of(self),
    {
        match self {
            McpToolKind::QueryBalance => "query_balance",
            McpToolKind::QueryIntent => "query_intent",
            McpToolKind::QueryContract => "query_contract",
            McpToolKind::SimulateIntent => "simulate_intent",
            McpToolKind::ExecutePlan => "execute_plan",
            McpToolKind::QueryProvenance => "query_provenance",
        }
    }

    /// What the tool listing says of this tool.
    pub fn description(self) -> (r: &'static str)
        ensures
            r@ == description_of(self),
    {
        match self {
            McpToolKind::QueryBalance => "Query the balance of an account for a given token.",
            McpToolKind::QueryIntent => "Query the status of an intent or transaction by digest.",
            McpToolKind::QueryContract => "Query contract state by address and resource tag.",
            McpToolKind::SimulateIntent => {
                "Simulate an intent without executing it. Returns a plan_hash for later execution."
            },
            McpToolKind::ExecutePlan => {
                "Execute a previously simulated and confirmed plan, bound by plan_hash."
            },
            McpToolKind::QueryProvenance => {
                "Query the provenance audit trail by agent, session, capability, or transaction."
            },
        }
    }

    /// Whether a call of this tool changes the chain's state.
    pub fn is_mutating(self) -> (r: bool)
        ensures
            r == (self == McpToolKind::ExecutePlan),
    {
        matches!(self, McpToolKind::ExecutePlan)
    }

    /// Whether a call of this tool may wait for a human's confirmation.
    pub fn may_require_confirmation(self) -> (r: bool)
        ensures
            r == (self == McpToolKind::ExecutePlan),
    {
        matches!(self, McpToolKind::ExecutePlan)
    }

    /// Every tool.
    pub fn all() -> (r: [McpToolKind; 6])
        ensures
            r@ == all_tools(),
    {
        let r: [McpToolKind; 6] = [
            McpToolKind::QueryBalance,
            McpToolKind::QueryIntent,
            McpToolKind::QueryContract,
            McpToolKind::SimulateIntent,
            McpToolKind::ExecutePlan,
            McpToolKind::QueryProvenance,
        ];
        assert(r@ =~= all_tools());
        r
    }
}

/// A kind of tool that must not be exposed.
#[derive(Debug, Clone, Copy, PartialEq, Eq, Structural)]
pub enum ForbiddenToolKind {
    /// Direct Move call data, which bypasses intent compilation.
    RawMovePayload,
    /// Direct broadcast without plan binding, which bypasses confirmation.
    DirectBroadcast,
    /// Admin override, which bypasses capability tokens.
    AdminOverride,
}

/// The name of a forbidden kind.
pub open spec fn forbidden_name(kind: ForbiddenToolKind) -> Seq<char> {
    match kind {
        ForbiddenToolKind::RawMovePayload => "RawMovePayload"@,
        ForbiddenToolKind::DirectBroadcast => "DirectBroadcast"@,
        ForbiddenToolKind::AdminOverride => "AdminOverride"@,
    }
}

impl ForbiddenToolKind {
    /// Why this kind of tool is forbidden.
    pub fn denial_reason(self) -> (r: &'static str)
        ensures
            r@ == (match self {
                ForbiddenToolKind::RawMovePayload => {
                    "raw Move payload passthrough bypasses intent compilation and plan binding"@
                },
                ForbiddenToolKind::DirectBroadcast => {
                    "direct broadcast bypasses simulation \u{2192} confirmation \u{2192} execution pipeline"@
                },
                ForbiddenToolKind::AdminOverride => {
                    "admin override bypasses capability token validation"@
                },
            }),
    {
        match self {
            ForbiddenToolKind::RawMovePayload => {
                "raw Move payload passthrough bypasses intent compilation and plan binding"
            },
            ForbiddenToolKind::DirectBroadcast => {
                "direct broadcast bypasses simulation \u{2192} confirmation \u{2192} execution pipeline"
            },
            ForbiddenToolKind::AdminOverride => {
                "admin override bypasses capability token validation"
            },
        }
    }

    /// The name of this kind.
    pub fn to_debug_string(self) -> (r: &'static str)
        ensures
            r@ == forbidden_name(self),
    {
        match self {
            ForbiddenToolKind::RawMovePayload => "RawMovePayload",
            ForbiddenToolKind::DirectBroadcast => "DirectBroadcast",
            ForbiddenToolKind::AdminOverride => "AdminOverride",
        }
    }
}

/// What the registry holds of a tool.
#[derive(Debug, Clone)]
pub struct ToolEntry {
    /// The tool.
    pub kind: McpToolKind,
    /// Whether the tool is currently enabled.
    pub enabled: bool,
}

/// The tool called `name`, if there is one.
pub open spec fn tool_named(name: Seq<char>) -> Option<McpToolKind> {
    if exists|k: McpToolKind| tool_name_of(k) == name {
        Some(choose|k: McpToolKind| tool_name_of(k) == name)
    } else {
        None
    }
}

/// The kind under which a tool called `name` is forbidden, if it is.
pub open spec fn forbidden_named(name: Seq<char>) -> Option<ForbiddenToolKind> {
    if name == "raw_move_payload"@ || name == "raw_payload"@ {
        Some(ForbiddenToolKind::RawMovePayload)
    } else if name == "direct_broadcast"@ || name == "broadcast_raw"@ {
        Some(ForbiddenToolKind::DirectBroadcast)
    } else if name == "admin_override"@ || name == "sudo"@ {
        Some(ForbiddenToolKind::AdminOverride)
    } else {
        None
    }
}

/// No two tools have the same name.
pub proof fn law_tool_names_are_distinct(a: McpToolKind, b: McpToolKind)
    requires
        tool_name_of(a) == tool_name_of(b),
    ensures
        a == b,
{
    reveal_strlit("query_balance");
    reveal_strlit("query_intent");
    reveal_strlit("query_contract");
    reveal_strlit("simulate_intent");
    reveal_strlit("execute_plan");
    reveal_strlit("query_provenance");
    let s = tool_name_of(a);
    assert(s.len() == 13 || s.len() == 12 || s.len() == 14 || s.len() == 15 || s.len() == 16);
    assert(s[0] == 'q' || s[0] == 's' || s[0] == 'e');
}

/// A tool is found under its own name.
pub proof fn law_tools_are_found_by_name(kind: McpToolKind)
    ensures
        tool_named(tool_name_of(kind)) == Some(kind),
{
    let found = choose|k: McpToolKind| tool_name_of(k) == tool_name_of(kind);
    law_tool_names_are_distinct(found, kind);
}

/// A name that can be called is not a forbidden name.
pub proof fn law_registered_tools_are_not_forbidden(kind: McpToolKind)
    ensures
        forbidden_named(tool_name_of(kind)) is None,
{
    reveal_strlit("query_balance");
    reveal_strlit("query_intent");
    reveal_strlit("query_contract");
    reveal_strlit("simulate_intent");
    reveal_strlit("execute_plan");
    reveal_strlit("query_provenance");
    reveal_strlit("raw_move_payload");
    reveal_strlit("raw_payload");
    reveal_strlit("direct_broadcast");
    reveal_strlit("broadcast_raw");
    reveal_strlit("admin_override");
    reveal_strlit("sudo");
    let s = tool_name_of(kind);
    assert(s[0] == 'q' || s[0] == 's' || s[0] == 'e');
    assert(s[0] == 's' ==> s.len() == 15);
}

/// The tool called `name`: `None` where the name is unknown or forbidden.
pub fn lookup_tool(name: &str) -> (r: Option<McpToolKind>)
    ensures
        r == tool_named(name@),
{
    let tools = McpToolKind::all();
    let mut i: usize = 0;
    while i < 6
        invariant
            0 <= i <= 6,
            tools@ == all_tools(),
            forall|j: int| 0 <= j < i ==> tool_name_of(#[trigger] all_tools()[j]) != name@,
        decreases 6 - i,
    {
        let kind: McpToolKind = tools[i];
        assert(kind == all_tools()[i as int]);
        if text_eq(kind.tool_name(), name) {
            proof {
                law_tools_are_found_by_name(kind);
            }
            return Some(kind);
        }
        i = i + 1;
    }
    assert forall|k: McpToolKind| #[trigger] tool_name_of(k) != name@ by {
        let j: int = match k {
            McpToolKind::QueryBalance => 0,
            McpToolKind::QueryIntent => 1,
            McpToolKind::QueryContract => 2,
            McpToolKind::SimulateIntent => 3,
            McpToolKind::ExecutePlan => 4,
            McpToolKind::QueryProvenance => 5,
        };
        assert(all_tools()[j] == k);
    }
    None
}

/// The kind under which a tool called `name` is forbidden, if it is.
pub fn is_forbidden_tool(name: &str) -> (r: Option<ForbiddenToolKind>)
    ensures
        r == forbidden_named(name@),
{
    if text_eq(name, "raw_move_payload") || text_eq(name, "raw_payload") {
        Some(ForbiddenToolKind::RawMovePayload)
    } else if text_eq(name, "direct_broadcast") || text_eq(name, "broadcast_raw") {
        Some(ForbiddenToolKind::DirectBroadcast)
    } else if text_eq(name, "admin_override") || text_eq(name, "sudo") {
        Some(ForbiddenToolKind::AdminOverride)
    } else {
        None
    }
}

} // verus!
