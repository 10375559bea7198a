//! Dialogue System
//!
//! NPC dialogue and conversation management.
//!
//! A dialogue is a set of nodes keyed by id; a conversation walks from the
//! start node along the responses the player picks, until a response with no
//! next node ends it.

use vstd::prelude::*;
use crate::strmap::StrMap;
use crate::text::{replace_all, replace_str};

verus! {

/// Dialogue node
#[derive(Debug, Clone)]
pub struct DialogueNode {
    pub id: String,
    pub speaker: String,
    pub text: String,
    pub portrait: Option<String>,
    pub responses: Vec<DialogueResponse>,
    /// Script to run when entering this node
    pub on_enter: Option<String>,
    /// Script to run when leaving this node
    pub on_exit: Option<String>,
}

/// Player response option
#[derive(Debug, Clone)]
pub struct DialogueResponse {
    pub text: String,
    /// None ends the dialogue
    pub next_node: Option<String>,
    /// Condition script
    pub condition: Option<String>,
    /// Effect script
    pub effect: Option<String>,
}

/// An optional string, as an optional character sequence.
pub open spec fn opt_str(o: Option<String>) -> Option<Seq<char>> {
    match o {
        Some(s) => Some(s@),
        None => None,
    }
}

/// An optional string slice, as an optional character sequence.
pub open spec fn opt_slice(o: Option<&str>) -> Option<Seq<char>> {
    match o {
        Some(s) => Some(s@),
        None => None,
    }
}

fn to_owned_opt(o: Option<&str>) -> (r: Option<String>)
    ensures
        opt_str(r) == opt_slice(o),
{
    match o {
        Some(s) => Some(s.to_owned()),
        None => None,
    }
}

fn clone_opt(o: &Option<String>) -> (r: Option<String>)
    ensures
        r == *o,
{
    match o {
        Some(s) => Some(s.clone()),
        None => None,
    }
}

impl DialogueResponse {
    pub fn simple(text: &str, next_node: Option<&str>) -> (r: Self)
        ensures
            r.text@ == text@,
            opt_str(r.next_node) == opt_slice(next_node),
            r.condition is None,
            r.effect is None,
    {
        DialogueResponse { text: text.to_owned(), next_node: to_owned_opt(next_node), condition: None, effect: None }
    }

    pub fn with_condition(self, condition: &str) -> (r: Self)
        ensures
            opt_str(r.condition) == Some(condition@),
            r.text == self.text,
            r.next_node == self.next_node,
            r.effect == self.effect,
    {
        let mut r = self;
        r.condition = Some(condition.to_owned());
        r
    }

    pub fn with_effect(self, effect: &str) -> (r: Self)
        ensures
            opt_str(r.effect) == Some(effect@),
            r.text == self.text,
            r.next_node == self.next_node,
            r.condition == self.condition,
    {
        let mut r = self;
        r.effect = Some(effect.to_owned());
        r
    }
}

/// Complete dialogue tree
pub struct Dialogue {
    pub id: String,
    pub nodes: StrMap<DialogueNode>,
    pub start_node: String,
}

impl Dialogue {
    pub fn new(id: &str, start_node: &str) -> (d: Self)
        ensures
            d.id@ == id@,
            d.start_node@ == start_node@,
            d.nodes@ == Map::<Seq<char>, DialogueNode>::empty(),
    {
        Dialogue { id: id.to_owned(), nodes: StrMap::new(), start_node: start_node.to_owned() }
    }

    /// Adds `node` under its id, replacing a node with the same id.
    pub fn add_node(&mut self, node: DialogueNode)
        ensures
            final(self).nodes@ == old(self).nodes@.insert(node.id@, node),
            final(self).id == old(self).id,
            final(self).start_node == old(self).start_node,
    {
        let key = node.id.clone();
        self.nodes.insert(key, node);
    }

    /// The node with id `id`.
    pub fn get_node(&self, id: &str) -> (r: Option<&DialogueNode>)
        ensures
            match r {
                Some(n) => self.nodes@.contains_key(id@) && *n == self.nodes@[id@],
                None => !self.nodes@.contains_key(id@),
            },
    {
        self.nodes.get(id)
    }

    /// The node the dialogue starts at.
    pub fn get_start_node(&self) -> (r: Option<&DialogueNode>)
        ensures
            match r {
                Some(n) => self.nodes@.contains_key(self.start_node@) && *n == self.nodes@[self.start_node@],
                None => !self.nodes@.contains_key(self.start_node@),
            },
    {
        self.nodes.get(self.start_node.as_str())
    }
}

/// The node of `d` with id `id`, if both are there.
pub open spec fn node_in(d: Option<Dialogue>, id: Option<Seq<char>>) -> Option<DialogueNode> {
    match (d, id) {
        (Some(d), Some(k)) => if d.nodes@.contains_key(k) {
            Some(d.nodes@[k])
        } else {
            None
        },
        _ => None,
    }
}

/// `text` with each variable placeholder `{key}` replaced by its value, the
/// variables being applied in the order of `vars`.
pub open spec fn substitute(text: Seq<char>, vars: Seq<(Seq<char>, Seq<char>)>) -> Seq<char>
    decreases vars.len(),
{
    if vars.len() == 0 {
        text
    } else {
        let last = vars.last();
        replace_all(substitute(text, vars.drop_last()), placeholder(last.0), last.1)
    }
}

/// The placeholder `{key}` for a variable.
pub open spec fn placeholder(key: Seq<char>) -> Seq<char> {
    seq!['{'] + key + seq!['}']
}

/// Dialogue manager handles the current conversation state
pub struct DialogueManager {
    current_dialogue: Option<Dialogue>,
    current_node_id: Option<String>,
    dialogue_history: Vec<String>,
    variables: StrMap<String>,
}

impl DialogueManager {
    /// The dialogue in progress, if any.
    pub closed spec fn dialogue(&self) -> Option<Dialogue> {
        self.current_dialogue
    }

    /// The id of the current node, if any.
    pub closed spec fn current_id(&self) -> Option<Seq<char>> {
        opt_str(self.current_node_id)
    }

    /// The ids of the nodes answered so far in this dialogue.
    pub closed spec fn history(&self) -> Seq<Seq<char>> {
        self.dialogue_history@.map_values(|s: String| s@)
    }

    /// The dialogue variables.
    pub closed spec fn variables(&self) -> Map<Seq<char>, Seq<char>> {
        self.variables@.map_values(|s: String| s@)
    }

    /// The dialogue variables, in the order they were first set.
    pub closed spec fn variable_entries(&self) -> Seq<(Seq<char>, Seq<char>)> {
        self.variables.entries_view().map_values(|e: (Seq<char>, String)| (e.0, e.1@))
    }

    /// The node the conversation is at.
    pub open spec fn current_node_spec(&self) -> Option<DialogueNode> {
        node_in(self.dialogue(), self.current_id())
    }

    pub fn new() -> (m: Self)
        ensures
            m.dialogue() is None,
            m.current_id() is None,
            m.history() == Seq::<Seq<char>>::empty(),
            m.variables() == Map::<Seq<char>, Seq<char>>::empty(),
            m.variable_entries() == Seq::<(Seq<char>, Seq<char>)>::empty(),
    {
        let m = DialogueManager {
            current_dialogue: None,
            current_node_id: None,
            dialogue_history: Vec::new(),
            variables: StrMap::new(),
        };
        assert(m.history() =~= Seq::<Seq<char>>::empty());
        assert(m.variables() =~= Map::<Seq<char>, Seq<char>>::empty());
        assert(m.variable_entries() =~= Seq::<(Seq<char>, Seq<char>)>::empty());
        m
    }

    /// Start a new dialogue at its start node; the history starts empty.
    pub fn start_dialogue(&mut self, dialogue: Dialogue)
        ensures
            final(self).dialogue() == Some(dialogue),
            final(self).current_id() == Some(dialogue.start_node@),
            final(self).history() == Seq::<Seq<char>>::empty(),
            final(self).variables() == old(self).variables(),
            final(self).variable_entries() == old(self).variable_entries(),
    {
        let start = dialogue.start_node.clone();
        self.current_dialogue = Some(dialogue);
        self.current_node_id = Some(start);
        self.dialogue_history.clear();
        assert(self.history() =~= Seq::<Seq<char>>::empty());
    }

    /// End the current dialogue
    pub fn end_dialogue(&mut self)
        ensures
            final(self).dialogue() is None,
            final(self).current_id() is None,
            final(self).history() == old(self).history(),
            final(self).variables() == old(self).variables(),
            final(self).variable_entries() == old(self).variable_entries(),
    {
        self.current_dialogue = None;
        self.current_node_id = None;
    }

    /// Is there an active dialogue?
    pub fn is_active(&self) -> (b: bool)
        ensures
            b == (self.dialogue() is Some && self.current_id() is Some),
    {
        self.current_dialogue.is_some() && self.current_node_id.is_some()
    }

    /// Get the current dialogue node
    pub fn current_node(&self) -> (r: Option<&DialogueNode>)
        ensures
            match r {
                Some(n) => self.current_node_spec() == Some(*n),
                None => self.current_node_spec() is None,
            },
    {
        match &self.current_dialogue {
            Some(dialogue) => match &self.current_node_id {
                Some(node_id) => dialogue.get_node(node_id.as_str()),
                None => None,
            },
            None => None,
        }
    }

    /// Select a response and advance the dialogue
    pub fn select_response(&mut self, response_index: usize) -> (result: DialogueResult)
        ensures
            final(self).variables() == old(self).variables(),
            final(self).variable_entries() == old(self).variable_entries(),
            match old(self).current_node_spec() {
                None => result == DialogueResult::NotInDialogue && *final(self) == *old(self),
                Some(node) => if response_index >= node.responses@.len() {
                    result == DialogueResult::InvalidResponse && *final(self) == *old(self)
                } else {
                    let response = node.responses@[response_index as int];
                    &&& final(self).history() == old(self).history().push(node.id@)
                    &&& match response.next_node {
                        Some(next) => {
                            &&& result == DialogueResult::Continue
                            &&& final(self).dialogue() == old(self).dialogue()
                            &&& final(self).current_id() == Some(next@)
                        },
                        None => {
                            &&& result == DialogueResult::End
                            &&& final(self).dialogue() is None
                            &&& final(self).current_id() is None
                        },
                    }
                },
            },
    {
        let (node_id, next) = match self.current_node() {
            Some(node) => {
                if response_index >= node.responses.len() {
                    return DialogueResult::InvalidResponse;
                }
                let response = &node.responses[response_index];
                (node.id.clone(), clone_opt(&response.next_node))
            },
            None => {
                return DialogueResult::NotInDialogue;
            },
        };

        // Record in history
        self.dialogue_history.push(node_id);
        proof {
            assert(self.history() =~= old(self).history().push(node_id@));
        }

        // Move to next node or end
        match next {
            Some(n) => {
                self.current_node_id = Some(n);
                DialogueResult::Continue
            },
            None => {
                self.end_dialogue();
                DialogueResult::End
            },
        }
    }

    /// Set a dialogue variable: a variable already set keeps its place in the
    /// order, a new one goes last.
    pub fn set_variable(&mut self, key: &str, value: &str)
        ensures
            final(self).variables() == old(self).variables().insert(key@, value@),
            final(self).variable_entries() == entries_after_set(
                old(self).variable_entries(),
                old(self).variables().contains_key(key@),
                key@,
                value@,
            ),
            final(self).dialogue() == old(self).dialogue(),
            final(self).current_id() == old(self).current_id(),
            final(self).history() == old(self).history(),
    {
        let v = value.to_owned();
        self.variables.insert(key.to_owned(), v);
        assert(self.variables() =~= old(self).variables().insert(key@, value@));
        assert(self.variable_entries() =~= entries_after_set(
            old(self).variable_entries(),
            old(self).variables().contains_key(key@),
            key@,
            value@,
        ));
    }

    /// Get a dialogue variable
    pub fn get_variable(&self, key: &str) -> (r: Option<&str>)
        ensures
            match r {
                Some(v) => self.variables().contains_key(key@) && self.variables()[key@] == v@,
                None => !self.variables().contains_key(key@),
            },
    {
        match self.variables.get(key) {
            Some(v) => Some(v.as_str()),
            None => None,
        }
    }

    /// Replace variables in text: each `{key}` becomes the variable's value,
    /// the variables being applied in the order they were first set.
    pub fn process_text(&self, text: &str) -> (r: String)
        ensures
            r@ == substitute(text@, self.variable_entries()),
    {
        let mut result = text.to_owned();
        let n = self.variables.len();
        let mut i: usize = 0;
        proof {
            assert(self.variable_entries().take(0) =~= Seq::<(Seq<char>, Seq<char>)>::empty());
        }
        while i < n
            invariant
                n == self.variables.entries_view().len(),
                n == self.variable_entries().len(),
                i <= n,
                result@ == substitute(text@, self.variable_entries().take(i as int)),
            decreases n - i,
        {
            let (key, value) = self.variables.entry_at(i);
            let pattern = placeholder_of(key.as_str());
            result = replace_str(result.as_str(), pattern.as_str(), value.as_str());
            proof {
                let vs = self.variable_entries();
                assert(vs.take(i + 1).drop_last() =~= vs.take(i as int));
                assert(vs.take(i + 1).last() == vs[i as int]);
            }
            i = i + 1;
        }
        proof {
            assert(self.variable_entries().take(n as int) =~= self.variable_entries());
        }
        result
    }
}

/// The variables, in order, after setting `key` to `value`: where the key is
/// `present` its entry takes the new value in place, else the entry goes last.
pub open spec fn entries_after_set(
    entries: Seq<(Seq<char>, Seq<char>)>,
    present: bool,
    key: Seq<char>,
    value: Seq<char>,
) -> Seq<(Seq<char>, Seq<char>)> {
    if present {
        entries.map_values(|e: (Seq<char>, Seq<char>)| if e.0 == key { (key, value) } else { e })
    } else {
        entries.push((key, value))
    }
}

/// Builds the placeholder `{key}`.
fn placeholder_of(key: &str) -> (p: String)
    ensures
        p@ == placeholder(key@),
        p@.len() > 0,
{
    let mut p = String::new();
    let open = "{";
    let close = "}";
    proof {
        reveal_strlit("{");
        reveal_strlit("}");
    }
    p.append(open);
    p.append(key);
    p.append(close);
    assert(p@ =~= placeholder(key@));
    p
}

impl Default for DialogueManager {
    fn default() -> (m: Self)
        ensures
            m.dialogue() is None,
            m.current_id() is None,
            m.history() == Seq::<Seq<char>>::empty(),
            m.variables() == Map::<Seq<char>, Seq<char>>::empty(),
    {
        Self::new()
    }
}

/// Result of advancing dialogue
#[derive(Debug, Clone, Copy, PartialEq, Eq, Structural)]
pub enum DialogueResult {
    Continue,
    End,
    InvalidResponse,
    NotInDialogue,
}

/// Without the pattern's first character, `s` has nothing to replace.
proof fn lemma_replace_absent(s: Seq<char>, pat: Seq<char>, rep: Seq<char>)
    requires
        pat.len() > 0,
        !s.contains(pat[0]),
    ensures
        replace_all(s, pat, rep) == s,
    decreases s.len(),
{
    if s.len() >= pat.len() {
        assert(s.take(pat.len() as int)[0] == s[0]);
        assert(s.contains(s[0]));
        assert(s.take(pat.len() as int) != pat);
        assert forall|c: char| s.skip(1).contains(c) implies s.contains(c) by {
            let i = choose|i: int| 0 <= i < s.skip(1).len() && s.skip(1)[i] == c;
            assert(s[i + 1] == c);
        }
        lemma_replace_absent(s.skip(1), pat, rep);
        assert(seq![s[0]] + s.skip(1) =~= s);
    }
}

/// Law (text without placeholders is unchanged): text with no `{` comes out
/// of `process_text` as it went in, whatever the variables.
pub proof fn law_text_without_placeholders(text: Seq<char>, vars: Seq<(Seq<char>, Seq<char>)>)
    requires
        !text.contains('{'),
    ensures
        substitute(text, vars) == text,
    decreases vars.len(),
{
    if vars.len() > 0 {
        law_text_without_placeholders(text, vars.drop_last());
        let last = vars.last();
        assert(placeholder(last.0)[0] == '{');
        lemma_replace_absent(text, placeholder(last.0), last.1);
    }
}

/// Law (a variable reads back as written): after `set_variable(key, value)`
/// on a manager, `get_variable(key)` gives `value` and every other variable
/// is unchanged; when `key` was not set before, `process_text` replaces its
/// placeholder last, after the variables set before it.
pub proof fn law_variable_read_after_write(
    before: DialogueManager,
    after: DialogueManager,
    key: Seq<char>,
    value: Seq<char>,
    other: Seq<char>,
    text: Seq<char>,
)
    requires
        other != key,
        after.variables() == before.variables().insert(key, value),
        after.variable_entries() == entries_after_set(
            before.variable_entries(),
            before.variables().contains_key(key),
            key,
            value,
        ),
    ensures
        after.variables().contains_key(key),
        after.variables()[key] == value,
        after.variables().contains_key(other) == before.variables().contains_key(other),
        before.variables().contains_key(other) ==> after.variables()[other] == before.variables()[other],
        !before.variables().contains_key(key) ==> substitute(text, after.variable_entries()) == replace_all(
            substitute(text, before.variable_entries()),
            placeholder(key),
            value,
        ),
{
    if !before.variables().contains_key(key) {
        let es = after.variable_entries();
        assert(es.drop_last() =~= before.variable_entries());
    }
}

/// Law (a conversation starts at the start node): after `start_dialogue(d)`
/// the current node is the node `get_start_node` gives for `d`.
pub proof fn law_start_at_start_node(after: DialogueManager, d: Dialogue)
    requires
        after.dialogue() == Some(d),
        after.current_id() == Some(d.start_node@),
    ensures
        after.current_node_spec() == (if d.nodes@.contains_key(d.start_node@) {
            Some(d.nodes@[d.start_node@])
        } else {
            None
        }),
{
}

} // verus!
