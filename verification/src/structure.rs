//! The rules on which source file may hold what: no hidden threads or tasks, no broad
//! handles on the session's owner, no reference between the children of the connection
//! manager, and sensitive calls only in the files that own them.
//!
//! A source file comes as the list of facts that its syntax tree holds.

use vstd::prelude::*;
use vstd::string::{StrSliceExecFns, StringExecFns};

use crate::text::owned;

verus! {

/// What a call of `publish` is made on.
#[derive(Debug)]
pub enum EffectReceiver {
    /// A path, by its last segment.
    Path(String),
    /// The result of a method.
    Method(String),
    /// Anything else.
    Other,
}

/// One fact of a source file, in the order of its syntax tree.
#[derive(Debug)]
pub enum SyntaxFact {
    /// A path.
    Path(Vec<String>),
    /// A call of a path.
    Call(Vec<String>),
    /// A call of a method.
    Method { name: String, receiver: EffectReceiver },
    /// An imported name; `glob` where everything under it is imported.
    Import { segments: Vec<String>, glob: bool },
    /// A type that is defined.
    Definition(String),
    /// An impl: whether its type mentions the connection manager's state, the trait it
    /// is of, and whether it leads to the session's manager.
    Implementation { of_cm_state: bool, of_trait: Option<String>, to_manager: bool },
}

/// The words of a list of strings.
pub open spec fn words(segments: Seq<String>) -> Seq<Seq<char>> {
    segments.map_values(|segment: String| segment@)
}

fn is(segment: &String, word: &str) -> (same: bool)
    ensures
        same == (segment@ == word@),
{
    *segment == owned(word)
}

/// The words of a path with `::` between them.
pub open spec fn joined(segments: Seq<Seq<char>>) -> Seq<char>
    decreases segments.len(),
{
    if segments.len() == 0 {
        Seq::empty()
    } else if segments.len() == 1 {
        segments[0]
    } else {
        joined(segments.drop_last()) + "::"@ + segments.last()
    }
}

fn join(segments: &Vec<String>) -> (text: String)
    ensures
        text@ == joined(words(segments@)),
{
    let mut text: String = String::new();
    let mut next: usize = 0;
    while next < segments.len()
        invariant
            next <= segments.len(),
            text@ == joined(words(segments@.take(next as int))),
        decreases segments.len() - next,
    {
        proof {
            let longer = words(segments@.take(next + 1));
            assert(longer.drop_last() =~= words(segments@.take(next as int)));
            assert(longer.last() == segments@[next as int]@);
        }
        if next > 0 {
            text.append("::");
        }
        text.append(segments[next].as_str());
        next = next + 1;
        assert(text@ =~= joined(words(segments@.take(next as int))));
    }
    assert(segments@.take(next as int) =~= segments@);
    text
}

/// Whether a path ends with these words.
pub open spec fn ends_with(segments: Seq<Seq<char>>, suffix: Seq<Seq<char>>) -> bool {
    suffix.len() <= segments.len() && segments.skip(segments.len() - suffix.len()) =~= suffix
}

fn ends_with_two(segments: &Vec<String>, a: &str, b: &str) -> (ends: bool)
    ensures
        ends == ends_with(words(segments@), seq![a@, b@]),
{
    let n: usize = segments.len();
    let ends: bool = n >= 2 && is(&segments[n - 2], a) && is(&segments[n - 1], b);
    proof {
        if n >= 2 {
            let tail = words(segments@).skip(n - 2);
            assert(tail.len() == 2);
            assert(tail[0] == segments@[n - 2]@ && tail[1] == segments@[n - 1]@);
            assert(seq![a@, b@][0] == a@ && seq![a@, b@][1] == b@);
        }
    }
    ends
}

fn ends_with_three(segments: &Vec<String>, a: &str, b: &str, c: &str) -> (ends: bool)
    ensures
        ends == ends_with(words(segments@), seq![a@, b@, c@]),
{
    let n: usize = segments.len();
    let ends: bool = n >= 3 && is(&segments[n - 3], a) && is(&segments[n - 2], b) && is(
        &segments[n - 1],
        c,
    );
    proof {
        if n >= 3 {
            let tail = words(segments@).skip(n - 3);
            let suffix = seq![a@, b@, c@];
            assert(tail.len() == 3);
            assert(tail[0] == segments@[n - 3]@ && tail[1] == segments@[n - 2]@ && tail[2]
                == segments@[n - 1]@);
            assert(suffix[0] == a@ && suffix[1] == b@ && suffix[2] == c@);
        }
    }
    ends
}

fn ends_with_four(segments: &Vec<String>, a: &str, b: &str, c: &str, d: &str) -> (ends: bool)
    ensures
        ends == ends_with(words(segments@), seq![a@, b@, c@, d@]),
{
    let n: usize = segments.len();
    let ends: bool = n >= 4 && is(&segments[n - 4], a) && is(&segments[n - 3], b) && is(
        &segments[n - 2],
        c,
    ) && is(&segments[n - 1], d);
    proof {
        if n >= 4 {
            let tail = words(segments@).skip(n - 4);
            let suffix = seq![a@, b@, c@, d@];
            assert(tail.len() == 4);
            assert(tail[0] == segments@[n - 4]@ && tail[1] == segments@[n - 3]@ && tail[2]
                == segments@[n - 2]@ && tail[3] == segments@[n - 1]@);
            assert(suffix[0] == a@ && suffix[1] == b@ && suffix[2] == c@ && suffix[3] == d@);
        }
    }
    ends
}

/// Whether a path names a call that starts hidden work.
pub open spec fn hidden_call(path: Seq<Seq<char>>) -> bool {
    ||| ends_with(path, seq!["std"@, "thread"@, "spawn"@])
    ||| ends_with(path, seq!["std"@, "thread"@, "scope"@])
    ||| ends_with(path, seq!["std"@, "thread"@, "Builder"@, "spawn"@])
    ||| ends_with(path, seq!["std"@, "thread"@, "Builder"@, "spawn_scoped"@])
    ||| ends_with(path, seq!["std"@, "thread"@, "Scope"@, "spawn"@])
    ||| ends_with(path, seq!["tokio"@, "spawn"@])
    ||| ends_with(path, seq!["tokio"@, "task"@, "spawn"@])
    ||| ends_with(path, seq!["tokio"@, "task"@, "spawn_blocking"@])
    ||| ends_with(path, seq!["tokio"@, "task"@, "spawn_local"@])
    ||| ends_with(path, seq!["tokio"@, "runtime"@, "Handle"@, "spawn"@])
    ||| ends_with(path, seq!["tokio"@, "runtime"@, "Handle"@, "spawn_blocking"@])
    ||| ends_with(path, seq!["tokio"@, "task"@, "LocalSet"@, "spawn_local"@])
    ||| ends_with(path, seq!["tokio"@, "task"@, "JoinSet"@, "spawn"@])
    ||| ends_with(path, seq!["tokio"@, "task"@, "JoinSet"@, "spawn_on"@])
    ||| ends_with(path, seq!["tokio"@, "task"@, "JoinSet"@, "spawn_local"@])
    ||| ends_with(path, seq!["tokio"@, "task"@, "JoinSet"@, "spawn_local_on"@])
    ||| ends_with(path, seq!["tokio"@, "task"@, "JoinSet"@, "spawn_blocking"@])
    ||| ends_with(path, seq!["tokio"@, "task"@, "JoinSet"@, "spawn_blocking_on"@])
    ||| ends_with(path, seq!["futures_util"@, "task"@, "SpawnExt"@, "spawn"@])
    ||| ends_with(path, seq!["futures_util"@, "task"@, "LocalSpawnExt"@, "spawn_local"@])
    ||| ends_with(path, seq!["futures_util"@, "task"@, "Spawn"@, "spawn_obj"@])
    ||| ends_with(path, seq!["futures_util"@, "task"@, "LocalSpawn"@, "spawn_local_obj"@])
    ||| ends_with(path, seq!["libc"@, "pthread_create"@])
}

fn names_hidden_call(path: &Vec<String>) -> (hidden: bool)
    ensures
        hidden == hidden_call(words(path@)),
{
    ends_with_three(path, "std", "thread", "spawn") || ends_with_three(
        path,
        "std",
        "thread",
        "scope",
    ) || ends_with_four(path, "std", "thread", "Builder", "spawn") || ends_with_four(
        path,
        "std",
        "thread",
        "Builder",
        "spawn_scoped",
    ) || ends_with_four(path, "std", "thread", "Scope", "spawn") || ends_with_two(
        path,
        "tokio",
        "spawn",
    ) || ends_with_three(path, "tokio", "task", "spawn") || ends_with_three(
        path,
        "tokio",
        "task",
        "spawn_blocking",
    ) || ends_with_three(path, "tokio", "task", "spawn_local") || ends_with_four(
        path,
        "tokio",
        "runtime",
        "Handle",
        "spawn",
    ) || ends_with_four(path, "tokio", "runtime", "Handle", "spawn_blocking") || ends_with_four(
        path,
        "tokio",
        "task",
        "LocalSet",
        "spawn_local",
    ) || ends_with_four(path, "tokio", "task", "JoinSet", "spawn") || ends_with_four(
        path,
        "tokio",
        "task",
        "JoinSet",
        "spawn_on",
    ) || ends_with_four(path, "tokio", "task", "JoinSet", "spawn_local") || ends_with_four(
        path,
        "tokio",
        "task",
        "JoinSet",
        "spawn_local_on",
    ) || ends_with_four(path, "tokio", "task", "JoinSet", "spawn_blocking") || ends_with_four(
        path,
        "tokio",
        "task",
        "JoinSet",
        "spawn_blocking_on",
    ) || ends_with_four(path, "futures_util", "task", "SpawnExt", "spawn") || ends_with_four(
        path,
        "futures_util",
        "task",
        "LocalSpawnExt",
        "spawn_local",
    ) || ends_with_four(path, "futures_util", "task", "Spawn", "spawn_obj") || ends_with_four(
        path,
        "futures_util",
        "task",
        "LocalSpawn",
        "spawn_local_obj",
    ) || ends_with_two(path, "libc", "pthread_create")
}

/// Whether a path names a type that hides work.
pub open spec fn hidden_type(path: Seq<Seq<char>>) -> bool {
    ||| ends_with(path, seq!["std"@, "thread"@, "Builder"@])
    ||| ends_with(path, seq!["tokio"@, "runtime"@, "Runtime"@])
    ||| ends_with(path, seq!["tokio"@, "runtime"@, "Builder"@])
    ||| ends_with(path, seq!["tokio"@, "task"@, "JoinSet"@])
    ||| ends_with(path, seq!["tokio"@, "task"@, "LocalSet"@])
}

fn names_hidden_type(path: &Vec<String>) -> (hidden: bool)
    ensures
        hidden == hidden_type(words(path@)),
{
    ends_with_three(path, "std", "thread", "Builder") || ends_with_three(
        path,
        "tokio",
        "runtime",
        "Runtime",
    ) || ends_with_three(path, "tokio", "runtime", "Builder") || ends_with_three(
        path,
        "tokio",
        "task",
        "JoinSet",
    ) || ends_with_three(path, "tokio", "task", "LocalSet")
}

/// Whether a method starts hidden work.
pub open spec fn hidden_method(name: Seq<char>) -> bool {
    ||| name == "spawn"@
    ||| name == "spawn_scoped"@
    ||| name == "spawn_local"@
    ||| name == "spawn_blocking"@
    ||| name == "spawn_on"@
    ||| name == "spawn_local_on"@
    ||| name == "spawn_blocking_on"@
    ||| name == "spawn_obj"@
    ||| name == "spawn_local_obj"@
}

fn names_hidden_method(name: &String) -> (hidden: bool)
    ensures
        hidden == hidden_method(name@),
{
    is(name, "spawn") || is(name, "spawn_scoped") || is(name, "spawn_local") || is(
        name,
        "spawn_blocking",
    ) || is(name, "spawn_on") || is(name, "spawn_local_on") || is(name, "spawn_blocking_on") || is(
        name,
        "spawn_obj",
    ) || is(name, "spawn_local_obj")
}

/// Whether two neighbouring words of a path are these.
pub open spec fn has_pair(path: Seq<Seq<char>>, a: Seq<char>, b: Seq<char>) -> bool {
    exists|i: int| 0 <= i < path.len() - 1 && #[trigger] path[i] == a && path[i + 1] == b
}

fn names_pair(path: &Vec<String>, a: &str, b: &str) -> (found: bool)
    ensures
        found == has_pair(words(path@), a@, b@),
{
    let mut i: usize = 1;
    while i < path.len()
        invariant
            1 <= i,
            forall|j: int|
                0 <= j < i - 1 && j < path@.len() - 1 ==> !(#[trigger] words(path@)[j] == a@
                    && words(path@)[j + 1] == b@),
        decreases path.len() - i,
    {
        if is(&path[i - 1], a) && is(&path[i], b) {
            assert(words(path@)[i - 1] == a@ && words(path@)[i - 1 + 1] == b@);
            return true;
        }
        i = i + 1;
    }
    false
}

/// Whether a word occurs in a path.
pub open spec fn has_word(path: Seq<Seq<char>>, word: Seq<char>) -> bool {
    exists|i: int| 0 <= i < path.len() && #[trigger] path[i] == word
}

fn names_word(path: &Vec<String>, word: &str) -> (found: bool)
    ensures
        found == has_word(words(path@), word@),
{
    let mut i: usize = 0;
    while i < path.len()
        invariant
            i <= path.len(),
            forall|j: int| 0 <= j < i ==> #[trigger] words(path@)[j] != word@,
        decreases path.len() - i,
    {
        if is(&path[i], word) {
            assert(words(path@)[i as int] == word@);
            return true;
        }
        i = i + 1;
    }
    false
}

/// Whether a path leads into the implementation of the connection manager.
pub open spec fn cm_reference(path: Seq<Seq<char>>) -> bool {
    has_word(path, "CmState"@) || has_pair(path, "session"@, "cm"@)
}

fn names_cm(path: &Vec<String>) -> (refers: bool)
    ensures
        refers == cm_reference(words(path@)),
{
    names_word(path, "CmState") || names_pair(path, "session", "cm")
}

/// Whether a path leads to a child of the connection manager by its full name.
pub open spec fn has_qualified_child(path: Seq<Seq<char>>, child: Seq<char>) -> bool {
    exists|i: int|
        0 <= i <= path.len() - 5 && #[trigger] path[i] == "v2"@ && path[i + 1] == "engine"@
            && path[i + 2] == "session"@ && path[i + 3] == "cm"@ && path[i + 4] == child
}

fn names_qualified_child(path: &Vec<String>, child: &str) -> (found: bool)
    ensures
        found == has_qualified_child(words(path@), child@),
{
    let mut i: usize = 4;
    while i < path.len()
        invariant
            4 <= i,
            forall|j: int|
                0 <= j < i - 4 && j <= path@.len() - 5 ==> !(#[trigger] words(path@)[j] == "v2"@
                    && words(path@)[j + 1] == "engine"@ && words(path@)[j + 2] == "session"@
                    && words(path@)[j + 3] == "cm"@ && words(path@)[j + 4] == child@),
        decreases path.len() - i,
    {
        if is(&path[i - 4], "v2") && is(&path[i - 3], "engine") && is(&path[i - 2], "session")
            && is(&path[i - 1], "cm") && is(&path[i], child) {
            assert(words(path@)[i - 4] == "v2"@);
            return true;
        }
        i = i + 1;
    }
    false
}

/// Whether a path leads to a child of the connection manager.
pub open spec fn refers_to_child(path: Seq<Seq<char>>, child: Seq<char>) -> bool {
    has_pair(path, "super"@, child) || has_qualified_child(path, child)
}

fn names_child(path: &Vec<String>, child: &str) -> (refers: bool)
    ensures
        refers == refers_to_child(words(path@), child@),
{
    names_pair(path, "super", child) || names_qualified_child(path, child)
}

/// The kinds of finding in a source file.
#[derive(Clone, Copy, Debug, PartialEq, Eq, Structural)]
pub enum FindingKind {
    HiddenWork,
    BroadOwnerAdapter,
    SiblingReference,
    CmDriverReference,
    QpAuthorityCall,
    EffectCommitCall,
}

/// A finding, or none.
pub open spec fn finding_if(found: bool, text: Seq<char>) -> Seq<Seq<char>> {
    if found {
        seq![text]
    } else {
        Seq::empty()
    }
}

/// The references of a path to the children of the connection manager.
pub open spec fn siblings_in(path: Seq<Seq<char>>) -> Seq<Seq<char>> {
    finding_if(refers_to_child(path, "event"@), joined(path)) + finding_if(
        refers_to_child(path, "outbound"@),
        joined(path),
    ) + finding_if(refers_to_child(path, "inbound"@), joined(path)) + finding_if(
        refers_to_child(path, "retirement"@),
        joined(path),
    ) + finding_if(refers_to_child(path, "shutdown"@), joined(path))
}

/// The hidden work that a path names.
pub open spec fn hidden_in(path: Seq<Seq<char>>) -> Seq<Seq<char>> {
    finding_if(hidden_call(path), joined(path)) + finding_if(hidden_type(path), joined(path))
}

/// Whether a call of this name destroys queue pairs.
pub open spec fn qp_authority(name: Seq<char>) -> bool {
    name == "destroy_qp"@ || name == "destroy_connection_resources"@ || name
        == "ensure_qp_destroyed"@
}

/// Whether a call of this name commits effects of the I/O side.
pub open spec fn effect_commit(name: Seq<char>) -> bool {
    name == "apply_io_effects"@ || name == "into_committed"@ || name == "commit_io_effects"@
}

/// Whether a word occurs inside a name.
pub open spec fn occurs_in(name: Seq<char>, word: Seq<char>) -> bool {
    exists|i: int|
        0 <= i <= name.len() - word.len() && #[trigger] name.subrange(i, i + word.len()) == word
}

/// Whether a call of `publish` on this publishes effects of the I/O side.
pub open spec fn publishes_effects(receiver: EffectReceiver) -> bool {
    match receiver {
        EffectReceiver::Path(name) => occurs_in(name@, "effect"@),
        EffectReceiver::Method(name) => effect_commit(name@),
        EffectReceiver::Other => false,
    }
}

/// Whether a trait hands out its owner whole.
pub open spec fn broad_trait(name: Seq<char>) -> bool {
    name == "Deref"@ || name == "DerefMut"@ || name == "AsRef"@ || name == "Borrow"@
}

/// What one fact counts as.
pub open spec fn found(fact: SyntaxFact, kind: FindingKind) -> Seq<Seq<char>> {
    match fact {
        SyntaxFact::Path(segments) => match kind {
            FindingKind::HiddenWork => hidden_in(words(segments@)),
            FindingKind::CmDriverReference => finding_if(
                cm_reference(words(segments@)),
                joined(words(segments@)),
            ),
            FindingKind::SiblingReference => siblings_in(words(segments@)),
            _ => Seq::empty(),
        },
        SyntaxFact::Call(segments) => match kind {
            FindingKind::HiddenWork => hidden_in(words(segments@)),
            FindingKind::CmDriverReference => finding_if(
                cm_reference(words(segments@)),
                joined(words(segments@)),
            ),
            FindingKind::QpAuthorityCall => if segments@.len() > 0 {
                finding_if(qp_authority(segments@.last()@), segments@.last()@)
            } else {
                Seq::empty()
            },
            FindingKind::EffectCommitCall => if segments@.len() > 0 {
                finding_if(effect_commit(segments@.last()@), segments@.last()@)
            } else {
                Seq::empty()
            },
            _ => Seq::empty(),
        },
        SyntaxFact::Method { name, receiver } => match kind {
            FindingKind::HiddenWork => finding_if(hidden_method(name@), "."@ + name@),
            FindingKind::QpAuthorityCall => finding_if(qp_authority(name@), name@),
            FindingKind::EffectCommitCall => finding_if(effect_commit(name@), name@) + finding_if(
                name@ == "publish"@ && publishes_effects(receiver),
                "publish"@,
            ),
            _ => Seq::empty(),
        },
        SyntaxFact::Import { segments, glob } => match kind {
            FindingKind::SiblingReference => finding_if(
                glob && words(segments@) =~= seq!["super"@],
                "wildcard parent import"@,
            ) + siblings_in(words(segments@)),
            _ => Seq::empty(),
        },
        SyntaxFact::Definition(name) => match kind {
            FindingKind::CmDriverReference => finding_if(name@ == "CmState"@, name@),
            _ => Seq::empty(),
        },
        SyntaxFact::Implementation { of_trait, to_manager, .. } => match (kind, of_trait) {
            (FindingKind::BroadOwnerAdapter, Some(name)) => finding_if(
                to_manager && broad_trait(name@),
                name@,
            ),
            _ => Seq::empty(),
        },
    }
}

/// What the facts of a file count as, in their order.
pub open spec fn all_found(facts: Seq<SyntaxFact>, kind: FindingKind) -> Seq<Seq<char>>
    decreases facts.len(),
{
    if facts.len() == 0 {
        Seq::empty()
    } else {
        all_found(facts.drop_last(), kind) + found(facts.last(), kind)
    }
}

/// How many impls of the connection manager's state a file holds.
pub open spec fn facades(facts: Seq<SyntaxFact>) -> nat
    decreases facts.len(),
{
    if facts.len() == 0 {
        0
    } else {
        facades(facts.drop_last()) + match facts.last() {
            SyntaxFact::Implementation { of_cm_state: true, .. } => 1nat,
            _ => 0,
        }
    }
}

/// What was found in a source file.
#[derive(Debug)]
pub struct Findings {
    pub hidden_work: Vec<String>,
    pub broad_owner_adapters: Vec<String>,
    pub sibling_references: Vec<String>,
    pub cm_driver_references: Vec<String>,
    pub facade_impls: usize,
    pub qp_authority_calls: Vec<String>,
    pub effect_commit_calls: Vec<String>,
}

impl Findings {
    /// The findings of a kind.
    pub open spec fn of(self, kind: FindingKind) -> Seq<Seq<char>> {
        match kind {
            FindingKind::HiddenWork => words(self.hidden_work@),
            FindingKind::BroadOwnerAdapter => words(self.broad_owner_adapters@),
            FindingKind::SiblingReference => words(self.sibling_references@),
            FindingKind::CmDriverReference => words(self.cm_driver_references@),
            FindingKind::QpAuthorityCall => words(self.qp_authority_calls@),
            FindingKind::EffectCommitCall => words(self.effect_commit_calls@),
        }
    }

    pub fn new() -> (findings: Self)
        ensures
            forall|kind: FindingKind| #[trigger] findings.of(kind) == Seq::<Seq<char>>::empty(),
            findings.facade_impls == 0,
    {
        let findings = Findings {
            hidden_work: Vec::new(),
            broad_owner_adapters: Vec::new(),
            sibling_references: Vec::new(),
            cm_driver_references: Vec::new(),
            facade_impls: 0,
            qp_authority_calls: Vec::new(),
            effect_commit_calls: Vec::new(),
        };
        assert forall|kind: FindingKind| #[trigger] findings.of(kind) == Seq::<Seq<char>>::empty() by {
            assert(findings.of(kind) =~= Seq::empty());
        }
        findings
    }
}

fn note(list: &mut Vec<String>, when: bool, text: String)
    ensures
        words(final(list)@) == words(old(list)@) + finding_if(when, text@),
{
    if when {
        list.push(text);
    }
    assert(words(list@) =~= words(old(list)@) + finding_if(when, text@));
}

fn note_siblings(list: &mut Vec<String>, path: &Vec<String>)
    ensures
        words(final(list)@) == words(old(list)@) + siblings_in(words(path@)),
{
    note(list, names_child(path, "event"), join(path));
    note(list, names_child(path, "outbound"), join(path));
    note(list, names_child(path, "inbound"), join(path));
    note(list, names_child(path, "retirement"), join(path));
    note(list, names_child(path, "shutdown"), join(path));
    assert(words(list@) =~= words(old(list)@) + siblings_in(words(path@)));
}

fn note_hidden(list: &mut Vec<String>, path: &Vec<String>)
    ensures
        words(final(list)@) == words(old(list)@) + hidden_in(words(path@)),
{
    note(list, names_hidden_call(path), join(path));
    note(list, names_hidden_type(path), join(path));
    assert(words(list@) =~= words(old(list)@) + hidden_in(words(path@)));
}

fn is_qp_authority(name: &String) -> (sensitive: bool)
    ensures
        sensitive == qp_authority(name@),
{
    is(name, "destroy_qp") || is(name, "destroy_connection_resources") || is(
        name,
        "ensure_qp_destroyed",
    )
}

fn is_effect_commit(name: &String) -> (sensitive: bool)
    ensures
        sensitive == effect_commit(name@),
{
    is(name, "apply_io_effects") || is(name, "into_committed") || is(name, "commit_io_effects")
}

fn holds_word(name: &String, word: &str) -> (holds: bool)
    ensures
        holds == occurs_in(name@, word@),
{
    let text: &str = name.as_str();
    let length: usize = text.unicode_len();
    let size: usize = word.unicode_len();
    if size > length {
        return false;
    }
    let wanted: String = owned(word);
    let mut i: usize = 0;
    while i <= length - size
        invariant
            length == text@.len(),
            text@ == name@,
            size == word@.len(),
            wanted@ == word@,
            size <= length,
            i <= length - size + 1,
            forall|j: int|
                0 <= j < i ==> #[trigger] name@.subrange(j, j + word@.len()) != word@,
        decreases length - size + 1 - i,
    {
        let part: String = owned(text.substring_char(i, i + size));
        if part == wanted {
            assert(name@.subrange(i as int, i + word@.len()) == word@);
            return true;
        }
        if i == length - size {
            assert(forall|j: int|
                0 <= j <= name@.len() - word@.len() ==> #[trigger] name@.subrange(
                    j,
                    j + word@.len(),
                ) != word@);
            return false;
        }
        i = i + 1;
    }
    false
}

fn receiver_publishes(receiver: &EffectReceiver) -> (publishes: bool)
    ensures
        publishes == publishes_effects(*receiver),
{
    match receiver {
        EffectReceiver::Path(name) => holds_word(name, "effect"),
        EffectReceiver::Method(name) => is_effect_commit(name),
        EffectReceiver::Other => false,
    }
}

impl Findings {
    /// Takes in one fact.
    fn record(&mut self, fact: &SyntaxFact)
        requires
            old(self).facade_impls < usize::MAX,
        ensures
            forall|kind: FindingKind| #[trigger]
                final(self).of(kind) == old(self).of(kind) + found(*fact, kind),
            final(self).facade_impls == old(self).facade_impls + match *fact {
                SyntaxFact::Implementation { of_cm_state: true, .. } => 1int,
                _ => 0,
            },
    {
        match fact {
            SyntaxFact::Path(segments) => {
                note(&mut self.cm_driver_references, names_cm(segments), join(segments));
                note_hidden(&mut self.hidden_work, segments);
                note_siblings(&mut self.sibling_references, segments);
            },
            SyntaxFact::Call(segments) => {
                note(&mut self.cm_driver_references, names_cm(segments), join(segments));
                note_hidden(&mut self.hidden_work, segments);
                if segments.len() > 0 {
                    let name: &String = &segments[segments.len() - 1];
                    note(&mut self.qp_authority_calls, is_qp_authority(name), name.clone());
                    note(&mut self.effect_commit_calls, is_effect_commit(name), name.clone());
                }
            },
            SyntaxFact::Method { name, receiver } => {
                let mut dotted: String = owned(".");
                dotted.append(name.as_str());
                note(&mut self.hidden_work, names_hidden_method(name), dotted);
                note(&mut self.qp_authority_calls, is_qp_authority(name), name.clone());
                note(&mut self.effect_commit_calls, is_effect_commit(name), name.clone());
                note(
                    &mut self.effect_commit_calls,
                    is(name, "publish") && receiver_publishes(receiver),
                    owned("publish"),
                );
            },
            SyntaxFact::Import { segments, glob } => {
                let parent: bool = *glob && segments.len() == 1 && is(&segments[0], "super");
                assert(parent == (*glob && words(segments@) =~= seq!["super"@])) by {
                    if segments@.len() == 1 {
                        assert(words(segments@)[0] == segments@[0]@);
                    }
                }
                note(&mut self.sibling_references, parent, owned("wildcard parent import"));
                note_siblings(&mut self.sibling_references, segments);
            },
            SyntaxFact::Definition(name) => {
                note(&mut self.cm_driver_references, is(name, "CmState"), name.clone());
            },
            SyntaxFact::Implementation { of_cm_state, of_trait, to_manager } => {
                if *of_cm_state {
                    self.facade_impls = self.facade_impls + 1;
                }
                if let Some(name) = of_trait {
                    let broad: bool = is(name, "Deref") || is(name, "DerefMut") || is(
                        name,
                        "AsRef",
                    ) || is(name, "Borrow");
                    note(&mut self.broad_owner_adapters, *to_manager && broad, name.clone());
                }
            },
        }
        assert forall|kind: FindingKind| #[trigger]
            self.of(kind) == old(self).of(kind) + found(*fact, kind) by {
            assert(self.of(kind) =~= old(self).of(kind) + found(*fact, kind));
        }
    }
}

/// Looks through the facts of a source file.
pub fn inspect(facts: &Vec<SyntaxFact>) -> (findings: Findings)
    ensures
        forall|kind: FindingKind| #[trigger] findings.of(kind) == all_found(facts@, kind),
        findings.facade_impls == facades(facts@),
{
    let mut findings = Findings::new();
    let mut next: usize = 0;
    while next < facts.len()
        invariant
            next <= facts.len(),
            forall|kind: FindingKind| #[trigger]
                findings.of(kind) == all_found(facts@.take(next as int), kind),
            findings.facade_impls == facades(facts@.take(next as int)),
            findings.facade_impls <= next,
        decreases facts.len() - next,
    {
        proof {
            assert(facts@.take(next + 1).drop_last() =~= facts@.take(next as int));
        }
        findings.record(&facts[next]);
        next = next + 1;
    }
    assert(facts@.take(next as int) =~= facts@);
    findings
}

/// Whether a file by this path may destroy queue pairs.
pub fn may_hold_qp_authority(path: &String) -> (allowed: bool)
    ensures
        allowed == (path@ == "src/v2/engine/session/mod.rs"@ || path@
            == "src/v2/engine/session/connection/mod.rs"@ || path@
            == "src/v2/engine/session/cm/retirement.rs"@),
{
    is(path, "src/v2/engine/session/mod.rs") || is(path, "src/v2/engine/session/connection/mod.rs")
        || is(path, "src/v2/engine/session/cm/retirement.rs")
}

/// Whether a file by this path may commit effects of the I/O side.
pub fn may_commit_effects(path: &String) -> (allowed: bool)
    ensures
        allowed == (path@ == "src/v2/engine/session/mod.rs"@ || path@
            == "src/v2/engine/session/drain.rs"@),
{
    is(path, "src/v2/engine/session/mod.rs") || is(path, "src/v2/engine/session/drain.rs")
}

/// Whether a file by this path holds tests only.
pub fn is_test_only(path: &String) -> (test_only: bool)
    ensures
        test_only == (path@ == "src/v2/engine/session/cm/tests.rs"@ || path@
            == "src/v2/engine/session/connection/tests.rs"@ || path@
            == "src/v2/engine/session/structure_tests.rs"@),
{
    is(path, "src/v2/engine/session/cm/tests.rs") || is(
        path,
        "src/v2/engine/session/connection/tests.rs",
    ) || is(path, "src/v2/engine/session/structure_tests.rs")
}

/// Whether a module is a child of the connection manager.
pub fn is_cm_child(module: &String) -> (child: bool)
    ensures
        child == (module@ == "event"@ || module@ == "outbound"@ || module@ == "inbound"@ || module@
            == "retirement"@ || module@ == "shutdown"@),
{
    is(module, "event") || is(module, "outbound") || is(module, "inbound") || is(
        module,
        "retirement",
    ) || is(module, "shutdown")
}

/// Which rules a file breaks.
#[derive(Clone, Copy, Debug, PartialEq, Eq, Structural)]
pub struct Violations {
    pub hidden_work: bool,
    pub broad_owner_adapters: bool,
    pub sibling_references: bool,
    pub facade_impls: bool,
    pub qp_authority: bool,
    pub effect_commits: bool,
}

/// Holds a production file of the session to the rules; `cm_child` where it is a child
/// of the connection manager.
pub fn violations(path: &String, cm_child: bool, findings: &Findings) -> (broken: Violations)
    ensures
        broken.hidden_work == (findings.of(FindingKind::HiddenWork).len() > 0),
        broken.broad_owner_adapters == (findings.of(FindingKind::BroadOwnerAdapter).len() > 0),
        broken.sibling_references == (cm_child && findings.of(FindingKind::SiblingReference).len()
            > 0),
        broken.facade_impls == (cm_child && findings.facade_impls > 0),
        broken.qp_authority == (findings.of(FindingKind::QpAuthorityCall).len() > 0 && path@
            != "src/v2/engine/session/mod.rs"@ && path@
            != "src/v2/engine/session/connection/mod.rs"@ && path@
            != "src/v2/engine/session/cm/retirement.rs"@),
        broken.effect_commits == (findings.of(FindingKind::EffectCommitCall).len() > 0 && path@
            != "src/v2/engine/session/mod.rs"@ && path@ != "src/v2/engine/session/drain.rs"@),
{
    Violations {
        hidden_work: findings.hidden_work.len() > 0,
        broad_owner_adapters: findings.broad_owner_adapters.len() > 0,
        sibling_references: cm_child && findings.sibling_references.len() > 0,
        facade_impls: cm_child && findings.facade_impls > 0,
        qp_authority: findings.qp_authority_calls.len() > 0 && !may_hold_qp_authority(path),
        effect_commits: findings.effect_commit_calls.len() > 0 && !may_commit_effects(path),
    }
}

/// Holds a production file of the engine's driver to its rule: it neither owns nor
/// imports anything of the connection manager's implementation.
pub fn driver_owns_cm(findings: &Findings) -> (broken: bool)
    ensures
        broken == (findings.of(FindingKind::CmDriverReference).len() > 0),
{
    findings.cm_driver_references.len() > 0
}

} // verus!
