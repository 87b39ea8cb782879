use vstd::prelude::*;
use crate::archive::{
    entries_readable, entry_actions, extraction_plan, listed_entries, unpacked,
    zip_entry, zip_entry_count,
};
use crate::executor::is_filesystem_session;
use crate::paths::child_of;
use crate::session::{ActionView, SessionView};

verus! {

/// What a path of the host's file tree holds.
pub enum Node {
    Dir,
    File(Seq<u8>),
}

/// A host's file tree, as the paths that hold something.
pub type FileTree = Map<Seq<char>, Node>;

/// Whether `p` is `root` or lies below it.
pub open spec fn within(p: Seq<char>, root: Seq<char>) -> bool {
    ||| p == root
    ||| (p.len() > root.len() && p.subrange(0, root.len() as int + 1) == root + seq!['/'])
}

/// What is at and below `root` in `t`.
pub open spec fn subtree(t: FileTree, root: Seq<char>) -> FileTree {
    Map::new(|k: Seq<char>| t.dom().contains(k) && within(k, root), |k: Seq<char>| t[k])
}

/// The tree after `a` went through on `t`.
pub open spec fn apply_action(t: FileTree, a: ActionView) -> FileTree {
    match a {
        ActionView::CreateDirAll(p) => t.insert(p, Node::Dir),
        ActionView::RemoveTree(p) => Map::new(
            |k: Seq<char>| t.dom().contains(k) && !within(k, p),
            |k: Seq<char>| t[k],
        ),
        ActionView::WriteFile(p, c) => t.insert(p, Node::File(c)),
        ActionView::RemoveFile(p) => t.remove(p),
        ActionView::RunCommand(_, _) => t,
    }
}

/// The tree after each of `actions` went through on `t`, in order.
pub open spec fn apply_actions(t: FileTree, actions: Seq<ActionView>) -> FileTree
    decreases actions.len(),
{
    if actions.len() == 0 {
        t
    } else {
        apply_actions(apply_action(t, actions[0]), actions.drop_first())
    }
}

proof fn lemma_apply_concat(t: FileTree, a: Seq<ActionView>, b: Seq<ActionView>)
    ensures
        apply_actions(t, a + b) == apply_actions(apply_actions(t, a), b),
    decreases a.len(),
{
    if a.len() == 0 {
        assert(a + b =~= b);
    } else {
        assert((a + b).drop_first() =~= a.drop_first() + b);
        lemma_apply_concat(apply_action(t, a[0]), a.drop_first(), b);
    }
}

proof fn lemma_action_keeps_subtree(u: FileTree, w: FileTree, a: ActionView, root: Seq<char>)
    requires
        subtree(u, root) == subtree(w, root),
    ensures
        subtree(apply_action(u, a), root) == subtree(apply_action(w, a), root),
{
    assert forall|k: Seq<char>| within(k, root) implies (u.dom().contains(k) == w.dom().contains(k)
        && (u.dom().contains(k) ==> u[k] == w[k])) by {
        assert(subtree(u, root).dom().contains(k) == u.dom().contains(k));
        assert(subtree(w, root).dom().contains(k) == w.dom().contains(k));
        if u.dom().contains(k) {
            assert(subtree(u, root)[k] == u[k]);
            assert(subtree(w, root)[k] == w[k]);
        }
    }
    assert(subtree(apply_action(u, a), root) =~= subtree(apply_action(w, a), root));
}

proof fn lemma_actions_keep_subtree(
    u: FileTree,
    w: FileTree,
    actions: Seq<ActionView>,
    root: Seq<char>,
)
    requires
        subtree(u, root) == subtree(w, root),
    ensures
        subtree(apply_actions(u, actions), root) == subtree(apply_actions(w, actions), root),
    decreases actions.len(),
{
    if actions.len() > 0 {
        lemma_action_keeps_subtree(u, w, actions[0], root);
        lemma_actions_keep_subtree(
            apply_action(u, actions[0]),
            apply_action(w, actions[0]),
            actions.drop_first(),
            root,
        );
    }
}

/// The tree that unpacking leaves below an extension's directory: the
/// empty directory, and then each unpacking action.
pub open spec fn fresh_install(target: Seq<char>, unpacking: Seq<ActionView>) -> FileTree {
    apply_actions(map![target => Node::Dir], unpacking)
}

/// Installing by unpacking leaves at and below the extension's directory
/// exactly what unpacking the package into an empty directory gives,
/// whatever the tree held before.
pub proof fn unpacking_replaces_previous_contents(
    before: FileTree,
    s: SessionView,
    extensions_dir: Seq<char>,
    extension_id: Seq<char>,
    data: Seq<u8>,
)
    requires
        is_filesystem_session(s, extensions_dir, extension_id, data),
    ensures
        ({
            let target = child_of(extensions_dir, extension_id);
            subtree(apply_actions(before, s.pending), target) == subtree(
                fresh_install(target, s.pending.subrange(3, s.pending.len() as int)),
                target,
            )
        }),
{
    let target = child_of(extensions_dir, extension_id);
    let prelude = s.pending.subrange(0, 3);
    let rest = s.pending.subrange(3, s.pending.len() as int);
    assert(s.pending =~= prelude + rest);
    lemma_apply_concat(before, prelude, rest);
    let t1 = apply_action(before, prelude[0]);
    let t2 = apply_action(t1, prelude[1]);
    let t3 = apply_action(t2, prelude[2]);
    let rest_a = prelude.drop_first();
    let rest_b = rest_a.drop_first();
    let rest_c = rest_b.drop_first();
    assert(rest_a[0] == prelude[1]);
    assert(rest_b[0] == prelude[2]);
    assert(rest_c.len() == 0);
    assert(apply_actions(t3, rest_c) == t3);
    assert(apply_actions(t2, rest_b) == t3);
    assert(apply_actions(t1, rest_a) == t3);
    assert(apply_actions(before, prelude) == t3);
    assert(!within(extensions_dir, target));
    assert(subtree(t3, target) =~= subtree(map![target => Node::Dir], target));
    lemma_actions_keep_subtree(t3, map![target => Node::Dir], rest, target);
}

/// Installing the same extension twice by unpacking leaves at and below its
/// directory only what the second package holds: a reinstall replaces and
/// never merges.
pub proof fn reinstall_keeps_only_second_package(
    before: FileTree,
    first: SessionView,
    second: SessionView,
    extensions_dir: Seq<char>,
    extension_id: Seq<char>,
    first_data: Seq<u8>,
    second_data: Seq<u8>,
)
    requires
        is_filesystem_session(first, extensions_dir, extension_id, first_data),
        is_filesystem_session(second, extensions_dir, extension_id, second_data),
    ensures
        ({
            let target = child_of(extensions_dir, extension_id);
            let after = apply_actions(apply_actions(before, first.pending), second.pending);
            subtree(after, target) == subtree(
                fresh_install(target, second.pending.subrange(3, second.pending.len() as int)),
                target,
            )
        }),
{
    unpacking_replaces_previous_contents(
        apply_actions(before, first.pending),
        second,
        extensions_dir,
        extension_id,
        second_data,
    );
}

/// Unpacking an archive whose one entry is a file leaves, under the target
/// directory at the entry's path, a file with exactly the entry's contents,
/// whatever the tree held before.
pub proof fn single_file_entry_round_trips(
    data: Seq<u8>,
    target: Seq<char>,
    name: Seq<char>,
    contents: Seq<u8>,
    actions: Seq<ActionView>,
    end: Result<(), crate::errors::ErrorKind>,
    before: FileTree,
)
    requires
        zip_entry_count(data) == Some(1nat),
        zip_entry(data, 0) == Some((name, contents)),
        !(name.len() > 0 && name.last() == '/'),
        unpacked(data, target, actions, end),
    ensures
        end is Ok,
        apply_actions(before, actions).dom().contains(child_of(target, name)),
        apply_actions(before, actions)[child_of(target, name)] == Node::File(contents),
{
    let k = choose|k: nat|
        {
            &&& k <= 1
            &&& entries_readable(data, k)
            &&& actions == extraction_plan(target, listed_entries(data, k))
            &&& if k == 1 {
                end is Ok
            } else {
                zip_entry(data, k) is None && end == Err::<(), crate::errors::ErrorKind>(
                    crate::errors::ErrorKind::Installation,
                )
            }
        };
    assert(k == 1);
    let listed = listed_entries(data, 1);
    assert(listed.drop_last() =~= Seq::<(Seq<char>, Seq<u8>)>::empty());
    assert(listed.last() == (name, contents));
    assert(extraction_plan(target, listed.drop_last()).len() == 0);
    assert(extraction_plan(target, listed) == extraction_plan(target, listed.drop_last())
        + entry_actions(target, name, contents));
    assert(actions =~= entry_actions(target, name, contents));
    let t1 = apply_action(before, actions[0]);
    let t2 = apply_action(t1, actions[1]);
    assert(actions.drop_first()[0] == actions[1]);
    assert(actions.drop_first().drop_first().len() == 0);
    assert(apply_actions(t2, actions.drop_first().drop_first()) == t2);
    assert(apply_actions(t1, actions.drop_first()) == t2);
}

} // verus!
