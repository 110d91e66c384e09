//! What the survey of a source tree finds.

use vstd::prelude::*;

use crate::structure::{
    all_found, broad_trait, cm_reference, effect_commit, ends_with, facades, found, has_pair,
    has_qualified_child, has_word, hidden_call, hidden_in, hidden_method, hidden_type, joined,
    occurs_in, publishes_effects, qp_authority, refers_to_child, siblings_in, words,
    EffectReceiver, FindingKind, SyntaxFact,
};

verus! {

/// A path ends with a suffix whatever stands before it, and with no other.
pub proof fn a_path_ends_with_its_suffix(before: Seq<Seq<char>>, suffix: Seq<Seq<char>>)
    ensures
        ends_with(before + suffix, suffix),
        forall|path: Seq<Seq<char>>|
            #![trigger ends_with(path, suffix)]
            ends_with(path, suffix) ==> path =~= path.take(path.len() - suffix.len()) + suffix,
{
    assert((before + suffix).skip((before + suffix).len() - suffix.len()) =~= suffix);
    assert forall|path: Seq<Seq<char>>|
        #![trigger ends_with(path, suffix)]
        ends_with(path, suffix) implies path =~= path.take(path.len() - suffix.len())
        + suffix by {
        let at = path.len() - suffix.len();
        assert(path =~= path.take(at) + path.skip(at));
    }
}

/// A call that starts hidden work is found, whatever path leads to it.
pub proof fn hidden_calls_are_found_behind_any_path(before: Seq<Seq<char>>)
    ensures
        hidden_call(before + seq!["std"@, "thread"@, "spawn"@]),
        hidden_call(before + seq!["std"@, "thread"@, "scope"@]),
        hidden_call(before + seq!["std"@, "thread"@, "Builder"@, "spawn"@]),
        hidden_call(before + seq!["std"@, "thread"@, "Builder"@, "spawn_scoped"@]),
        hidden_call(before + seq!["std"@, "thread"@, "Scope"@, "spawn"@]),
        hidden_call(before + seq!["tokio"@, "spawn"@]),
        hidden_call(before + seq!["tokio"@, "task"@, "spawn"@]),
        hidden_call(before + seq!["tokio"@, "task"@, "spawn_blocking"@]),
        hidden_call(before + seq!["tokio"@, "task"@, "spawn_local"@]),
        hidden_call(before + seq!["tokio"@, "runtime"@, "Handle"@, "spawn"@]),
        hidden_call(before + seq!["tokio"@, "runtime"@, "Handle"@, "spawn_blocking"@]),
        hidden_call(before + seq!["tokio"@, "task"@, "LocalSet"@, "spawn_local"@]),
        hidden_call(before + seq!["tokio"@, "task"@, "JoinSet"@, "spawn"@]),
        hidden_call(before + seq!["tokio"@, "task"@, "JoinSet"@, "spawn_on"@]),
        hidden_call(before + seq!["tokio"@, "task"@, "JoinSet"@, "spawn_local"@]),
        hidden_call(before + seq!["tokio"@, "task"@, "JoinSet"@, "spawn_local_on"@]),
        hidden_call(before + seq!["tokio"@, "task"@, "JoinSet"@, "spawn_blocking"@]),
        hidden_call(before + seq!["tokio"@, "task"@, "JoinSet"@, "spawn_blocking_on"@]),
        hidden_call(before + seq!["futures_util"@, "task"@, "SpawnExt"@, "spawn"@]),
        hidden_call(before + seq!["futures_util"@, "task"@, "LocalSpawnExt"@, "spawn_local"@]),
        hidden_call(before + seq!["futures_util"@, "task"@, "Spawn"@, "spawn_obj"@]),
        hidden_call(before + seq!["futures_util"@, "task"@, "LocalSpawn"@, "spawn_local_obj"@]),
        hidden_call(before + seq!["libc"@, "pthread_create"@]),
{
    a_path_ends_with_its_suffix(before, seq!["std"@, "thread"@, "spawn"@]);
    a_path_ends_with_its_suffix(before, seq!["std"@, "thread"@, "scope"@]);
    a_path_ends_with_its_suffix(before, seq!["std"@, "thread"@, "Builder"@, "spawn"@]);
    a_path_ends_with_its_suffix(before, seq!["std"@, "thread"@, "Builder"@, "spawn_scoped"@]);
    a_path_ends_with_its_suffix(before, seq!["std"@, "thread"@, "Scope"@, "spawn"@]);
    a_path_ends_with_its_suffix(before, seq!["tokio"@, "spawn"@]);
    a_path_ends_with_its_suffix(before, seq!["tokio"@, "task"@, "spawn"@]);
    a_path_ends_with_its_suffix(before, seq!["tokio"@, "task"@, "spawn_blocking"@]);
    a_path_ends_with_its_suffix(before, seq!["tokio"@, "task"@, "spawn_local"@]);
    a_path_ends_with_its_suffix(before, seq!["tokio"@, "runtime"@, "Handle"@, "spawn"@]);
    a_path_ends_with_its_suffix(before, seq!["tokio"@, "runtime"@, "Handle"@, "spawn_blocking"@]);
    a_path_ends_with_its_suffix(before, seq!["tokio"@, "task"@, "LocalSet"@, "spawn_local"@]);
    a_path_ends_with_its_suffix(before, seq!["tokio"@, "task"@, "JoinSet"@, "spawn"@]);
    a_path_ends_with_its_suffix(before, seq!["tokio"@, "task"@, "JoinSet"@, "spawn_on"@]);
    a_path_ends_with_its_suffix(before, seq!["tokio"@, "task"@, "JoinSet"@, "spawn_local"@]);
    a_path_ends_with_its_suffix(before, seq!["tokio"@, "task"@, "JoinSet"@, "spawn_local_on"@]);
    a_path_ends_with_its_suffix(before, seq!["tokio"@, "task"@, "JoinSet"@, "spawn_blocking"@]);
    a_path_ends_with_its_suffix(before, seq!["tokio"@, "task"@, "JoinSet"@, "spawn_blocking_on"@]);
    a_path_ends_with_its_suffix(before, seq!["futures_util"@, "task"@, "SpawnExt"@, "spawn"@]);
    a_path_ends_with_its_suffix(before, seq!["futures_util"@, "task"@, "LocalSpawnExt"@, "spawn_local"@]);
    a_path_ends_with_its_suffix(before, seq!["futures_util"@, "task"@, "Spawn"@, "spawn_obj"@]);
    a_path_ends_with_its_suffix(before, seq!["futures_util"@, "task"@, "LocalSpawn"@, "spawn_local_obj"@]);
    a_path_ends_with_its_suffix(before, seq!["libc"@, "pthread_create"@]);
}

/// A type that starts hidden work is found, whatever path leads to it.
pub proof fn hidden_types_are_found_behind_any_path(before: Seq<Seq<char>>)
    ensures
        hidden_type(before + seq!["std"@, "thread"@, "Builder"@]),
        hidden_type(before + seq!["tokio"@, "runtime"@, "Runtime"@]),
        hidden_type(before + seq!["tokio"@, "runtime"@, "Builder"@]),
        hidden_type(before + seq!["tokio"@, "task"@, "JoinSet"@]),
        hidden_type(before + seq!["tokio"@, "task"@, "LocalSet"@]),
{
    a_path_ends_with_its_suffix(before, seq!["std"@, "thread"@, "Builder"@]);
    a_path_ends_with_its_suffix(before, seq!["tokio"@, "runtime"@, "Runtime"@]);
    a_path_ends_with_its_suffix(before, seq!["tokio"@, "runtime"@, "Builder"@]);
    a_path_ends_with_its_suffix(before, seq!["tokio"@, "task"@, "JoinSet"@]);
    a_path_ends_with_its_suffix(before, seq!["tokio"@, "task"@, "LocalSet"@]);
}

/// Only a call whose last word starts work is hidden work, and only a type that is made
/// to start it.
pub proof fn hidden_work_is_known_by_its_last_word(path: Seq<Seq<char>>)
    ensures
        hidden_call(path) ==> path.len() >= 2 && (path.last() == "pthread_create"@
            || path.last() == "scope"@ || path.last() == "spawn"@
            || path.last() == "spawn_blocking"@ || path.last() == "spawn_blocking_on"@
            || path.last() == "spawn_local"@ || path.last() == "spawn_local_obj"@
            || path.last() == "spawn_local_on"@ || path.last() == "spawn_obj"@
            || path.last() == "spawn_on"@ || path.last() == "spawn_scoped"@),
        hidden_type(path) ==> path.len() >= 3 && (path.last() == "Builder"@
            || path.last() == "JoinSet"@ || path.last() == "LocalSet"@
            || path.last() == "Runtime"@),
        hidden_in(path).len() == (if hidden_call(path) {
            1int
        } else {
            0
        }) + (if hidden_type(path) {
            1int
        } else {
            0
        }),
        forall|i: int|
            #![trigger hidden_in(path)[i]]
            0 <= i < hidden_in(path).len() ==> hidden_in(path)[i] == joined(path),
{
    assert forall|suffix: Seq<Seq<char>>| #[trigger]
        ends_with(path, suffix) && suffix.len() > 0 implies path.len() >= suffix.len()
        && path.last() == suffix.last() by {
        assert(path.skip(path.len() - suffix.len()).last() == path.last());
    }
}

/// A method that starts work is found by its name, whoever it is called on.
pub proof fn hidden_methods_are_found(name: Seq<char>)
    ensures
        hidden_method("spawn"@),
        hidden_method("spawn_scoped"@),
        hidden_method("spawn_local"@),
        hidden_method("spawn_blocking"@),
        hidden_method("spawn_on"@),
        hidden_method("spawn_local_on"@),
        hidden_method("spawn_blocking_on"@),
        hidden_method("spawn_obj"@),
        hidden_method("spawn_local_obj"@),
        qp_authority(name) <==> name == "destroy_qp"@ || name == "destroy_connection_resources"@
            || name == "ensure_qp_destroyed"@,
        effect_commit(name) <==> name == "apply_io_effects"@ || name == "into_committed"@ || name
            == "commit_io_effects"@,
        broad_trait(name) <==> name == "Deref"@ || name == "DerefMut"@ || name == "AsRef"@ || name
            == "Borrow"@,
{
}

/// The connection manager is referred to by its state's name, or by its path, wherever
/// these stand.
pub proof fn references_are_found_anywhere(
    before: Seq<Seq<char>>,
    behind: Seq<Seq<char>>,
    child: Seq<char>,
)
    ensures
        cm_reference(before + seq!["CmState"@] + behind),
        cm_reference(before + seq!["session"@, "cm"@] + behind),
        refers_to_child(before + seq!["super"@, child] + behind, child),
        refers_to_child(
            before + seq!["v2"@, "engine"@, "session"@, "cm"@, child] + behind,
            child,
        ),
{
    let at = before.len() as int;
    let a = before + seq!["CmState"@] + behind;
    assert(a[at] == "CmState"@);
    assert(has_word(a, "CmState"@));
    let b = before + seq!["session"@, "cm"@] + behind;
    assert(b[at] == "session"@ && b[at + 1] == "cm"@);
    assert(has_pair(b, "session"@, "cm"@));
    let c = before + seq!["super"@, child] + behind;
    assert(c[at] == "super"@ && c[at + 1] == child);
    assert(has_pair(c, "super"@, child));
    let d = before + seq!["v2"@, "engine"@, "session"@, "cm"@, child] + behind;
    assert(d[at] == "v2"@ && d[at + 1] == "engine"@ && d[at + 2] == "session"@ && d[at + 3]
        == "cm"@ && d[at + 4] == child);
    assert(has_qualified_child(d, child));
}

/// A path is a reference to a sibling once for each sibling that it names.
pub proof fn siblings_are_found_by_name(path: Seq<Seq<char>>)
    ensures
        siblings_in(path).len() == (if refers_to_child(path, "event"@) {
            1int
        } else {
            0
        }) + (if refers_to_child(path, "outbound"@) {
            1int
        } else {
            0
        }) + (if refers_to_child(path, "inbound"@) {
            1int
        } else {
            0
        }) + (if refers_to_child(path, "retirement"@) {
            1int
        } else {
            0
        }) + (if refers_to_child(path, "shutdown"@) {
            1int
        } else {
            0
        }),
        forall|i: int|
            #![trigger siblings_in(path)[i]]
            0 <= i < siblings_in(path).len() ==> siblings_in(path)[i] == joined(path),
{
}

/// What one fact shows is found under each kind that it bears on: paths and calls for
/// hidden work and references, calls and methods for authority and commits, imports
/// for siblings, impls for adapters; and under no other.
pub proof fn facts_show_what_they_bear_on(fact: SyntaxFact, kind: FindingKind)
    ensures
        fact matches SyntaxFact::Path(segments) ==> {
            &&& found(fact, FindingKind::HiddenWork) == hidden_in(words(segments@))
            &&& cm_reference(words(segments@)) ==> found(fact, FindingKind::CmDriverReference)
                =~= seq![joined(words(segments@))]
            &&& !cm_reference(words(segments@)) ==> found(
                fact,
                FindingKind::CmDriverReference,
            ).len() == 0
            &&& found(fact, FindingKind::SiblingReference) == siblings_in(words(segments@))
            &&& found(fact, FindingKind::QpAuthorityCall).len() == 0
            &&& found(fact, FindingKind::EffectCommitCall).len() == 0
            &&& found(fact, FindingKind::BroadOwnerAdapter).len() == 0
        },
        fact matches SyntaxFact::Call(segments) ==> {
            &&& found(fact, FindingKind::HiddenWork) == hidden_in(words(segments@))
            &&& cm_reference(words(segments@)) ==> found(fact, FindingKind::CmDriverReference)
                =~= seq![joined(words(segments@))]
            &&& segments@.len() > 0 && qp_authority(segments@.last()@) ==> found(
                fact,
                FindingKind::QpAuthorityCall,
            ) =~= seq![segments@.last()@]
            &&& segments@.len() > 0 && !qp_authority(segments@.last()@) ==> found(
                fact,
                FindingKind::QpAuthorityCall,
            ).len() == 0
            &&& segments@.len() > 0 && effect_commit(segments@.last()@) ==> found(
                fact,
                FindingKind::EffectCommitCall,
            ) =~= seq![segments@.last()@]
            &&& segments@.len() > 0 && !effect_commit(segments@.last()@) ==> found(
                fact,
                FindingKind::EffectCommitCall,
            ).len() == 0
        },
        fact matches SyntaxFact::Method { name, receiver } ==> {
            &&& hidden_method(name@) ==> found(fact, FindingKind::HiddenWork) =~= seq!["."@ + name@]
            &&& !hidden_method(name@) ==> found(fact, FindingKind::HiddenWork).len() == 0
            &&& qp_authority(name@) ==> found(fact, FindingKind::QpAuthorityCall) =~= seq![name@]
            &&& !qp_authority(name@) ==> found(fact, FindingKind::QpAuthorityCall).len() == 0
            &&& effect_commit(name@) ==> found(fact, FindingKind::EffectCommitCall).len() > 0
            &&& name@ == "publish"@ && publishes_effects(receiver) ==> found(
                fact,
                FindingKind::EffectCommitCall,
            ).last() == "publish"@
        },
        fact matches SyntaxFact::Import { segments, glob } ==> {
            &&& !glob ==> found(fact, FindingKind::SiblingReference) =~= siblings_in(
                words(segments@),
            )
            &&& glob && words(segments@) =~= seq!["super"@] ==> found(
                fact,
                FindingKind::SiblingReference,
            ).len() > 0 && found(fact, FindingKind::SiblingReference)[0]
                == "wildcard parent import"@
        },
        fact matches SyntaxFact::Definition(name) ==> {
            &&& name@ == "CmState"@ ==> found(fact, FindingKind::CmDriverReference)
                =~= seq![name@]
            &&& name@ != "CmState"@ ==> found(fact, FindingKind::CmDriverReference).len() == 0
        },
        fact matches SyntaxFact::Implementation { of_trait, to_manager, .. } ==> {
            &&& of_trait matches Some(name) ==> (to_manager && broad_trait(name@) ==> found(
                fact,
                FindingKind::BroadOwnerAdapter,
            ) =~= seq![name@])
            &&& !to_manager || of_trait is None ==> found(
                fact,
                FindingKind::BroadOwnerAdapter,
            ).len() == 0
        },
{
}

/// A receiver publishes effects if its name mentions them, anywhere, or if it is what a
/// commit gives.
pub proof fn effects_are_known_by_their_receiver(receiver: EffectReceiver, before: Seq<char>, behind: Seq<char>)
    ensures
        occurs_in(before + "effect"@ + behind, "effect"@),
        receiver matches EffectReceiver::Path(name) ==> (publishes_effects(receiver) <==> occurs_in(
            name@,
            "effect"@,
        )),
        receiver matches EffectReceiver::Method(name) ==> (publishes_effects(receiver)
            <==> effect_commit(name@)),
        receiver is Other ==> !publishes_effects(receiver),
{
    let name = before + "effect"@ + behind;
    let at = before.len() as int;
    assert(name.subrange(at, at + "effect"@.len()) =~= "effect"@);
}

/// The findings of a list of facts are those of its parts, in their order; and so is the
/// number of its facades.
pub proof fn findings_add_up(first: Seq<SyntaxFact>, second: Seq<SyntaxFact>, kind: FindingKind)
    ensures
        all_found(first + second, kind) =~= all_found(first, kind) + all_found(second, kind),
        facades(first + second) == facades(first) + facades(second),
        first.len() == 1 ==> all_found(first, kind) =~= found(first[0], kind),
        first.len() == 1 ==> facades(first) == match first[0] {
            SyntaxFact::Implementation { of_cm_state: true, .. } => 1nat,
            _ => 0,
        },
    decreases second.len(),
{
    if second.len() == 0 {
        assert(first + second =~= first);
    } else {
        assert((first + second).drop_last() =~= first + second.drop_last());
        assert((first + second).last() == second.last());
        findings_add_up(first, second.drop_last(), kind);
    }
    if first.len() == 1 {
        assert(first.drop_last().len() == 0);
        assert(all_found(first.drop_last(), kind).len() == 0);
        assert(facades(first.drop_last()) == 0);
    }
}

/// The words of a path are joined with two colons, and nothing else is put between them.
pub proof fn words_are_joined_by_colons(path: Seq<Seq<char>>, word: Seq<char>)
    ensures
        joined(seq![word]) =~= word,
        path.len() > 0 ==> joined(path.push(word)) =~= joined(path) + "::"@ + word,
        joined(Seq::empty()).len() == 0,
{
    assert(path.push(word).drop_last() =~= path);
}

} // verus!
