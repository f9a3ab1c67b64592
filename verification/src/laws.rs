use vstd::prelude::*;
use crate::command::CommandView;
use crate::effect::{cd_asks, cd_effect, ls_output, Effect};
use crate::emulator::ShellEmulator;
use crate::listing::{child_name, children, lemma_segment_end, listing_text, segment_end};
use crate::path::{
    canonical, dir_path, last_separator, lemma_last_separator, lemma_parent_is_canonical, parent_of,
    trimmed,
};

verus! {

/// A child name is one segment: it holds no separator. At the root it is the
/// first segment of the entry's name.
pub proof fn lemma_child_name_is_segment(name: Seq<char>, prefix: Seq<char>)
    ensures
        forall|j: int| 0 <= j < child_name(name, prefix).len() ==> child_name(name, prefix)[j] != '/',
        child_name(name, Seq::empty()) == name.take(segment_end(name, 0)),
{
    lemma_segment_end(name, 0);
    assert(Seq::<char>::empty().is_prefix_of(name));
    assert(name.subrange(0, segment_end(name, 0)) =~= name.take(segment_end(name, 0)));
    if prefix.is_prefix_of(name) {
        lemma_segment_end(name, prefix.len() as int);
    }
}

/// A listing shows only child names of entries, each of them that is not
/// empty, none of them twice, and in the order in which the entries first
/// bring them: the listing of the first `k` entries opens the listing of all.
/// This holds at the root, where the prefix is empty, as under any directory,
/// however many entries share a segment.
pub proof fn lemma_listing_is_distinct_children(names: Seq<Seq<char>>, prefix: Seq<char>)
    ensures
        forall|i: int|
            0 <= i < children(names, prefix).len() ==> {
                &&& (#[trigger] children(names, prefix)[i]).len() > 0
                &&& exists|k: int|
                    0 <= k < names.len() && children(names, prefix)[i] == child_name(
                        #[trigger] names[k],
                        prefix,
                    )
            },
        forall|i: int, j: int|
            0 <= i < j < children(names, prefix).len() ==> children(names, prefix)[i] != children(
                names,
                prefix,
            )[j],
        forall|k: int|
            0 <= k < names.len() && child_name(#[trigger] names[k], prefix).len() > 0
                ==> children(names, prefix).contains(child_name(names[k], prefix)),
        forall|k: int|
            0 <= k <= names.len() ==> (#[trigger] children(names.take(k), prefix)).is_prefix_of(
                children(names, prefix),
            ),
    decreases names.len(),
{
    let all = children(names, prefix);
    if names.len() == 0 {
        assert forall|k: int| 0 <= k <= names.len() implies (#[trigger] children(
            names.take(k),
            prefix,
        )).is_prefix_of(all) by {
            assert(names.take(k) =~= names);
        }
    } else {
        let rest = names.drop_last();
        let before = children(rest, prefix);
        let child = child_name(names.last(), prefix);
        lemma_listing_is_distinct_children(rest, prefix);
        assert forall|i: int| 0 <= i < all.len() implies {
            &&& (#[trigger] all[i]).len() > 0
            &&& exists|k: int| 0 <= k < names.len() && all[i] == child_name(#[trigger] names[k], prefix)
        } by {
            if i < before.len() {
                let k = choose|k: int| 0 <= k < rest.len() && before[i] == child_name(#[trigger] rest[k], prefix);
                assert(rest[k] == names[k]);
            } else {
                assert(all[i] == child_name(names[names.len() - 1], prefix));
            }
        }
        assert forall|k: int|
            0 <= k < names.len() && child_name(#[trigger] names[k], prefix).len() > 0 implies all.contains(
            child_name(names[k], prefix),
        ) by {
            if k < rest.len() {
                assert(rest[k] == names[k]);
                let at = choose|at: int| 0 <= at < before.len() && before[at] == child_name(names[k], prefix);
                assert(all[at] == child_name(names[k], prefix));
            } else {
                if before.contains(child) {
                } else {
                    assert(all[all.len() - 1] == child);
                }
            }
        }
        assert forall|k: int| 0 <= k <= names.len() implies (#[trigger] children(
            names.take(k),
            prefix,
        )).is_prefix_of(all) by {
            if k == names.len() {
                assert(names.take(k) =~= names);
            } else {
                assert(rest.take(k) =~= names.take(k));
                assert(children(rest.take(k), prefix).is_prefix_of(before));
            }
        }
    }
}

/// `ls` without an operand at the root shows the first segment of entry
/// names and nothing else: each item of the line is the part before the first
/// separator of some entry, is not empty, and stands in the line once, however
/// many entries begin with it.
pub proof fn lemma_ls_at_root(names: Seq<Seq<char>>)
    ensures
        ls_output(Seq::empty(), ""@, names) == listing_text(children(names, Seq::empty())),
        forall|i: int|
            0 <= i < children(names, Seq::empty()).len() ==> {
                &&& (#[trigger] children(names, Seq::empty())[i]).len() > 0
                &&& exists|k: int|
                    0 <= k < names.len() && children(names, Seq::empty())[i] == (#[trigger] names[k]).take(
                        segment_end(names[k], 0),
                    )
            },
        forall|i: int, j: int|
            0 <= i < j < children(names, Seq::empty()).len() ==> children(names, Seq::empty())[i]
                != children(names, Seq::empty())[j],
{
    reveal_strlit("");
    reveal_strlit(".?.");
    assert(""@.len() != ".?."@.len());
    let root = Seq::<char>::empty();
    let shown = children(names, root);
    lemma_listing_is_distinct_children(names, root);
    assert forall|i: int| 0 <= i < shown.len() implies {
        &&& (#[trigger] shown[i]).len() > 0
        &&& exists|k: int|
            0 <= k < names.len() && shown[i] == (#[trigger] names[k]).take(segment_end(names[k], 0))
    } by {
        let k = choose|k: int| 0 <= k < names.len() && shown[i] == child_name(#[trigger] names[k], root);
        lemma_child_name_is_segment(names[k], root);
    }
}

/// `cd ..` at the root stays at the root, whatever the archive holds, and is
/// logged as a move to the root.
pub proof fn lemma_cd_up_at_root(found: Result<bool, Seq<char>>)
    ensures
        cd_effect(Seq::empty(), ".."@, found).cursor == Seq::<char>::empty(),
        cd_effect(Seq::empty(), ".."@, found).logged == Some(("cd"@, "navigated to root"@)),
{
    reveal_strlit("..");
    reveal_strlit("");
    reveal_strlit("/");
}

/// Entering a directory by its name and then going up leads back: from a
/// canonical cursor, `cd` to a name that holds no separator, does not start
/// with `.` and is found as a directory, followed by `cd ..`, ends where it
/// began.
pub proof fn lemma_cd_then_up(
    cursor: Seq<char>,
    name: Seq<char>,
    found_up: Result<bool, Seq<char>>,
)
    requires
        canonical(cursor),
        name.len() > 0,
        name[0] != '.',
        forall|j: int| 0 <= j < name.len() ==> name[j] != '/',
    ensures
        cd_effect(cursor, name, Ok(true)).cursor == dir_path(cursor, name),
        cd_effect(cd_effect(cursor, name, Ok(true)).cursor, ".."@, found_up).cursor == cursor,
{
    reveal_strlit("..");
    reveal_strlit("");
    reveal_strlit("/");
    let inner = cursor + name;
    let full = inner + "/"@;
    assert(name[0] != '/');
    assert(inner.last() == name.last());
    assert(dir_path(cursor, name) == full);
    assert(name != ""@);
    assert(name != "/"@);
    assert(name != ".."@) by {
        if name == ".."@ {
            assert(".."@[0] == '.');
        }
    }
    assert(cd_asks(name));
    assert(cd_effect(cursor, name, Ok(true)).cursor == full);
    lemma_parent_of_child(cursor, name);
    assert("/"@ =~= seq!['/']);
    assert(parent_of(full) == cursor);
}

/// The parent of a directory that lies directly in `cursor` is `cursor`.
pub proof fn lemma_parent_of_child(cursor: Seq<char>, name: Seq<char>)
    requires
        canonical(cursor),
        name.len() > 0,
        forall|j: int| 0 <= j < name.len() ==> name[j] != '/',
    ensures
        parent_of(cursor + name + seq!['/']) == cursor,
{
    let inner = cursor + name;
    let full = inner + seq!['/'];
    assert(full.last() == '/');
    assert(trimmed(full) =~= inner);
    assert(!(full =~= seq!['/']));
    lemma_last_separator(inner);
    let at = last_separator(inner);
    if cursor.len() > 0 {
        assert(inner[cursor.len() - 1] == '/');
        assert(at >= cursor.len() - 1);
    }
    if at >= cursor.len() {
        assert(inner[at] == name[at - cursor.len()]);
    }
    assert(at == cursor.len() - 1);
    assert(full.take(at + 1) =~= cursor);
}

/// The log only grows: whatever a command does, the log that was there
/// before opens the log that is there afterwards, record for record.
pub proof fn lemma_log_only_grows(before: ShellEmulator, after: ShellEmulator, effect: Effect)
    requires
        after.follows(before, effect),
    ensures
        before.history().is_prefix_of(after.history()),
        after.history().len() <= before.history().len() + 1,
{
}

/// Only `cd` moves the cursor, and whatever the archive answers, the cursor
/// of a well-formed shell stays canonical.
pub proof fn lemma_cursor_moves_by_cd_only(shell: ShellEmulator, command: CommandView)
    requires
        shell.well_formed(),
    ensures
        canonical(shell.effect_of(command).cursor),
        !(command is Cd) ==> shell.effect_of(command).cursor == shell.cursor(),
{
    reveal_strlit("/");
    if let CommandView::Cd(dir) = command {
        lemma_parent_is_canonical(shell.cursor());
        let path = shell.cursor() + dir;
        assert((path + "/"@).last() == '/');
    }
}

} // verus!
