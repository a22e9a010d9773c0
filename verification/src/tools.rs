//! The tools that a conversation may use.

use serde_json::Value;
use vstd::prelude::*;

use crate::json::{json_parse, parse_json};
use crate::names::{tools_view, ToolNames};
use crate::text::{lemma_filter_all, outcome};

verus! {

/// A tool that there is, with the permission that it takes.
#[derive(Debug)]
pub struct ToolSpec<P> {
    pub name: String,
    pub description: String,
    pub input_schema: Value,
    pub required_permission: P,
}

/// A tool, as a provider is told of it.
#[derive(Debug)]
pub struct ToolDefinition {
    pub name: String,
    pub description: Option<String>,
    pub input_schema: Value,
}

/// The permission that a conversation has, and those that the tools take, in order.
#[derive(Debug)]
pub struct PermissionPolicy<P> {
    pub mode: P,
    pub requirements: Vec<(String, P)>,
}

/// Decides on a call of a tool before the tool runs.
#[derive(Debug)]
pub struct EndlessToolExecutor {
    pub allowed_tools: Option<ToolNames>,
}

/// What a [`ToolSpec`] holds.
pub struct ToolSpecView<P> {
    pub name: Seq<char>,
    pub description: Seq<char>,
    pub input_schema: Value,
    pub required_permission: P,
}

/// What a [`ToolDefinition`] holds.
pub struct ToolDefinitionView {
    pub name: Seq<char>,
    pub description: Option<Seq<char>>,
    pub input_schema: Value,
}

impl<P> View for ToolSpec<P> {
    type V = ToolSpecView<P>;

    open spec fn view(&self) -> ToolSpecView<P> {
        ToolSpecView {
            name: self.name@,
            description: self.description@,
            input_schema: self.input_schema,
            required_permission: self.required_permission,
        }
    }
}

impl View for ToolDefinition {
    type V = ToolDefinitionView;

    open spec fn view(&self) -> ToolDefinitionView {
        ToolDefinitionView {
            name: self.name@,
            description: match self.description {
                Some(description) => Some(description@),
                None => None,
            },
            input_schema: self.input_schema,
        }
    }
}

/// What the tools that there are hold.
pub open spec fn spec_views<P>(specs: Seq<ToolSpec<P>>) -> Seq<ToolSpecView<P>> {
    specs.map_values(|tool: ToolSpec<P>| tool@)
}

/// What the tools that a provider is told of hold.
pub open spec fn definition_views(definitions: Seq<ToolDefinition>) -> Seq<ToolDefinitionView> {
    definitions.map_values(|tool: ToolDefinition| tool@)
}

/// What the requirements of a policy hold.
pub open spec fn requirement_views<P>(requirements: Seq<(String, P)>) -> Seq<(Seq<char>, P)> {
    requirements.map_values(|requirement: (String, P)| (requirement.0@, requirement.1))
}

/// What a set of tool names that may not be there holds.
pub open spec fn allowed_view(allowed_tools: Option<&ToolNames>) -> Option<Set<Seq<char>>> {
    match allowed_tools {
        Some(allowed) => Some(allowed@),
        None => None,
    }
}

/// Whether a tool may be used. All may unless they are listed.
pub open spec fn tool_allowed(allowed: Option<Set<Seq<char>>>, name: Seq<char>) -> bool {
    allowed is Some ==> allowed->0.contains(name)
}

/// A tool, as a provider is told of it.
pub open spec fn definition_of<P>(tool: ToolSpecView<P>) -> ToolDefinitionView {
    ToolDefinitionView {
        name: tool.name,
        description: Some(tool.description),
        input_schema: tool.input_schema,
    }
}

/// The tools that a provider is told of: those that may be used, in order.
pub open spec fn offered<P>(specs: Seq<ToolSpecView<P>>, allowed: Option<Set<Seq<char>>>) -> Seq<
    ToolDefinitionView,
> {
    specs.filter(|tool: ToolSpecView<P>| tool_allowed(allowed, tool.name)).map_values(
        |tool: ToolSpecView<P>| definition_of(tool),
    )
}

/// The input of a tool, given what parsing its text came to.
pub open spec fn input_outcome(parsed: Result<Value, Seq<char>>) -> Result<Value, Seq<char>> {
    match parsed {
        Ok(value) => Ok(value),
        Err(message) => Err("invalid tool input JSON: "@ + message),
    }
}

/// What a call of a tool comes to before the tool runs: its input, or why it is refused.
pub open spec fn call_outcome(
    allowed: Option<Set<Seq<char>>>,
    name: Seq<char>,
    input: Seq<char>,
) -> Result<Value, Seq<char>> {
    if tool_allowed(allowed, name) {
        input_outcome(json_parse(input))
    } else {
        Err("tool `"@ + name + "` is not enabled for the Slack bridge"@)
    }
}

/// The tools that a provider is told of: those that may be used, in order.
pub fn allowed_tool_definitions<P>(
    specs: Vec<ToolSpec<P>>,
    allowed_tools: Option<&ToolNames>,
) -> (r: Vec<ToolDefinition>)
    ensures
        definition_views(r@) == offered(spec_views(specs@), allowed_view(allowed_tools)),
{
    let ghost all = spec_views(specs@);
    let ghost allowed = allowed_view(allowed_tools);
    let ghost kept = |tool: ToolSpecView<P>| tool_allowed(allowed, tool.name);
    let mut out: Vec<ToolDefinition> = Vec::new();
    proof {
        reveal(Seq::filter);
    }
    for tool in it: specs.into_iter()
        invariant
            it.seq() == specs@,
            all == spec_views(specs@),
            allowed == allowed_view(allowed_tools),
            kept == (|tool: ToolSpecView<P>| tool_allowed(allowed, tool.name)),
            definition_views(out@) == offered(all.take(it.index()), allowed),
    {
        let ghost i = it.index();
        let ghost view = tool@;
        let ghost head = definition_views(out@);
        proof {
            reveal(Seq::filter);
            assert(all[i] == view);
            assert(all.take(i + 1).drop_last() == all.take(i));
            assert(all.take(i + 1).last() == view);
        }
        let usable = match allowed_tools {
            Some(allowed) => allowed.contains(tool.name.as_str()),
            None => true,
        };
        if usable {
            let definition = ToolDefinition {
                name: tool.name,
                description: Some(tool.description),
                input_schema: tool.input_schema,
            };
            out.push(definition);
            assert(definition_views(out@) == head.push(definition_of(view)));
            assert(all.take(i + 1).filter(kept) == all.take(i).filter(kept).push(view));
            assert(offered(all.take(i + 1), allowed) == offered(all.take(i), allowed).push(
                definition_of(view),
            ));
        } else {
            assert(all.take(i + 1).filter(kept) == all.take(i).filter(kept));
        }
    }
    assert(all.take(all.len() as int) == all);
    out
}

/// The policy under which the tools run: the mode of the conversation, and what each of
/// the tools takes.
pub fn permission_policy<P>(mode: P, specs: Vec<ToolSpec<P>>) -> (r: PermissionPolicy<P>)
    ensures
        r.mode == mode,
        requirement_views(r.requirements@) == spec_views(specs@).map_values(
            |tool: ToolSpecView<P>| (tool.name, tool.required_permission),
        ),
{
    let mut requirements: Vec<(String, P)> = Vec::new();
    for tool in it: specs.into_iter()
        invariant
            it.seq() == specs@,
            requirements@.len() == it.index(),
            forall|k: int|
                0 <= k < it.index() ==> (#[trigger] requirements@[k]).0@ == specs@[k].name@
                    && requirements@[k].1 == specs@[k].required_permission,
    {
        requirements.push((tool.name, tool.required_permission));
    }
    assert(requirement_views(requirements@) == spec_views(specs@).map_values(
        |tool: ToolSpecView<P>| (tool.name, tool.required_permission),
    ));
    PermissionPolicy { mode, requirements }
}

/// The input of a tool, given what parsing its text came to.
pub fn checked_input(parsed: Result<Value, String>) -> (r: Result<Value, String>)
    ensures
        outcome(r) == input_outcome(outcome(parsed)),
{
    match parsed {
        Ok(value) => Ok(value),
        Err(message) => Err("invalid tool input JSON: ".to_string().concat(message.as_str())),
    }
}

impl EndlessToolExecutor {
    /// Lets through calls of the tools that may be used.
    pub fn new(allowed_tools: Option<ToolNames>) -> (r: Self)
        ensures
            r.allowed_tools == allowed_tools,
    {
        EndlessToolExecutor { allowed_tools }
    }

    /// What a call of a tool comes to before the tool runs: its input, or why it is
    /// refused.
    pub fn check_call(&self, tool_name: &str, input: &str) -> (r: Result<Value, String>)
        ensures
            outcome(r) == call_outcome(tools_view(self.allowed_tools), tool_name@, input@),
    {
        if let Some(allowed) = &self.allowed_tools {
            if !allowed.contains(tool_name) {
                return Err(
                    "tool `".to_string().concat(tool_name).concat(
                        "` is not enabled for the Slack bridge",
                    ),
                );
            }
        }
        checked_input(parse_json(input))
    }
}

/// A tool that a provider is told of can be called: no call of it is refused for being
/// one that is not enabled.
pub proof fn law_offered_tools_can_be_called<P>(
    specs: Seq<ToolSpecView<P>>,
    allowed: Option<Set<Seq<char>>>,
    input: Seq<char>,
)
    ensures
        forall|k: int|
            0 <= k < offered(specs, allowed).len() ==> call_outcome(
                allowed,
                (#[trigger] offered(specs, allowed)[k]).name,
                input,
            ) == input_outcome(json_parse(input)),
{
    let kept = |tool: ToolSpecView<P>| tool_allowed(allowed, tool.name);
    assert forall|k: int| 0 <= k < offered(specs, allowed).len() implies tool_allowed(
        allowed,
        (#[trigger] offered(specs, allowed)[k]).name,
    ) by {
        specs.lemma_filter_contains_rev(kept, specs.filter(kept)[k]);
        assert(kept(specs.filter(kept)[k]));
    }
}

/// A provider is told of every tool that there is and that may be used, and of no other.
pub proof fn law_provider_is_told_of_usable_tools<P>(
    specs: Seq<ToolSpecView<P>>,
    allowed: Option<Set<Seq<char>>>,
    tool: ToolSpecView<P>,
)
    requires
        specs.contains(tool),
    ensures
        tool_allowed(allowed, tool.name) ==> offered(specs, allowed).contains(definition_of(tool)),
        !tool_allowed(allowed, tool.name) ==> forall|k: int|
            0 <= k < offered(specs, allowed).len() ==> (#[trigger] offered(specs, allowed)[k]).name
                != tool.name,
{
    let kept = |tool: ToolSpecView<P>| tool_allowed(allowed, tool.name);
    if tool_allowed(allowed, tool.name) {
        let i = choose|i: int| 0 <= i < specs.len() && specs[i] == tool;
        specs.lemma_filter_contains(kept, i);
        let k = choose|k: int| 0 <= k < specs.filter(kept).len() && specs.filter(kept)[k] == tool;
        assert(offered(specs, allowed)[k] == definition_of(tool));
    } else {
        assert forall|k: int| 0 <= k < offered(specs, allowed).len() implies (
        #[trigger] offered(specs, allowed)[k]).name != tool.name by {
            specs.lemma_filter_contains_rev(kept, specs.filter(kept)[k]);
            assert(kept(specs.filter(kept)[k]));
        }
    }
}

/// Where the tools that may be used are not listed, a provider is told of all.
pub proof fn law_all_tools_unless_listed<P>(specs: Seq<ToolSpecView<P>>)
    ensures
        offered(specs, None) == specs.map_values(|tool: ToolSpecView<P>| definition_of(tool)),
{
    lemma_filter_all(specs, |tool: ToolSpecView<P>| tool_allowed(None, tool.name));
}

/// A call of a tool is refused for its name if and only if the tools are listed and it is
/// not among them, and the refusal names it. Any other call comes to the value that its
/// input was parsed to or to a report of what is wrong with the input.
pub proof fn law_which_calls_are_let_through(
    allowed: Option<Set<Seq<char>>>,
    name: Seq<char>,
    input: Seq<char>,
)
    ensures
        ({
            let checked = call_outcome(allowed, name, input);
            if allowed is Some && !allowed->0.contains(name) {
                checked == Err::<Value, Seq<char>>(
                    "tool `"@ + name + "` is not enabled for the Slack bridge"@,
                )
            } else {
                &&& json_parse(input) matches Ok(value) ==> checked == Ok::<Value, Seq<char>>(value)
                &&& json_parse(input) matches Err(message) ==> checked == Err::<Value, Seq<char>>(
                    "invalid tool input JSON: "@ + message,
                )
            }
        }),
{
}

/// What parsing an input came to is handed on: the value as it is, and the message behind
/// what it is about.
pub proof fn law_parsed_inputs_are_handed_on(parsed: Result<Value, Seq<char>>)
    ensures
        parsed is Ok ==> input_outcome(parsed) == parsed,
        parsed matches Err(message) ==> input_outcome(parsed) == Err::<Value, Seq<char>>(
            "invalid tool input JSON: "@ + message,
        ),
{
}

/// A provider is told of a tool by its name, its description and the form of its input, if
/// and only if the tools are not listed or it is among them; and of several tools as of
/// each by itself, in their order.
pub proof fn law_tools_are_offered_one_by_one<P>(
    tool: ToolSpecView<P>,
    specs: Seq<ToolSpecView<P>>,
    more: Seq<ToolSpecView<P>>,
    allowed: Option<Set<Seq<char>>>,
)
    ensures
        ({
            let told = offered(seq![tool], allowed);
            if allowed is Some && !allowed->0.contains(tool.name) {
                told.len() == 0
            } else {
                &&& told.len() == 1
                &&& told[0].name == tool.name
                &&& told[0].description == Some(tool.description)
                &&& told[0].input_schema == tool.input_schema
            }
        }),
        offered(specs + more, allowed) == offered(specs, allowed) + offered(more, allowed),
{
    let kept = |tool: ToolSpecView<P>| tool_allowed(allowed, tool.name);
    let one = seq![tool];
    reveal(Seq::filter);
    reveal_with_fuel(Seq::filter, 2);
    assert(one.drop_last() == Seq::<ToolSpecView<P>>::empty());
    assert(one.drop_last().filter(kept) == Seq::<ToolSpecView<P>>::empty());
    if kept(tool) {
        assert(one.filter(kept) == one);
    } else {
        assert(one.filter(kept).len() == 0);
    }
    Seq::filter_distributes_over_add(specs, more, kept);
    assert(offered(specs + more, allowed) =~= offered(specs, allowed) + offered(more, allowed));
}

/// Tools are taken for what they hold, field by field.
pub proof fn law_tools_are_what_they_hold<P>(
    tool: ToolSpec<P>,
    definition: ToolDefinition,
    specs: Seq<ToolSpec<P>>,
    definitions: Seq<ToolDefinition>,
    requirements: Seq<(String, P)>,
    allowed: Option<&ToolNames>,
)
    ensures
        tool@.name == tool.name@,
        tool@.description == tool.description@,
        tool@.input_schema == tool.input_schema,
        tool@.required_permission == tool.required_permission,
        definition@.name == definition.name@,
        definition@.description is Some <==> definition.description is Some,
        definition.description is Some ==> definition@.description->0
            == definition.description->0@,
        definition@.input_schema == definition.input_schema,
        spec_views(specs).len() == specs.len(),
        forall|i: int| 0 <= i < specs.len() ==> #[trigger] spec_views(specs)[i] == specs[i]@,
        definition_views(definitions).len() == definitions.len(),
        forall|i: int|
            0 <= i < definitions.len() ==> #[trigger] definition_views(definitions)[i]
                == definitions[i]@,
        requirement_views(requirements).len() == requirements.len(),
        forall|i: int|
            0 <= i < requirements.len() ==> #[trigger] requirement_views(requirements)[i] == (
                requirements[i].0@,
                requirements[i].1,
            ),
        allowed_view(allowed) is Some <==> allowed is Some,
        allowed is Some ==> allowed_view(allowed)->0 == allowed->0@,
{
}

} // verus!
