//! Session-wide laws: properties that relate several operations, proved
//! once and for all over the spec functions the handlers are pinned to.

use vstd::prelude::*;

verus! {

use crate::catalog::Catalog;
use crate::dispatch::spec_cd;
use crate::dispatch::spec_dispatch;
use crate::navigator::Navigator;
use crate::navigator::concat_all;
use crate::outcome::ErrorKind;
use crate::outcome::ResultView;
use crate::outcome::text_line;
use crate::text::before_slash;
use crate::text::slash_count;
use crate::theme::Theme;
use crate::theme::spec_theme_command;

/// A string without `/` has no slashes to count, and is its own part
/// before the first slash.
pub proof fn lemma_slash_free(s: Seq<char>)
    requires
        forall|i: int| 0 <= i < s.len() ==> s[i] != '/',
    ensures
        slash_count(s) == 0,
        before_slash(s) == s,
{
    lemma_slash_count_zero(s);
    crate::text::lemma_before_slash_no_slash(s);
}

proof fn lemma_slash_count_zero(s: Seq<char>)
    requires
        forall|i: int| 0 <= i < s.len() ==> s[i] != '/',
    ensures
        slash_count(s) == 0,
    decreases s.len(),
{
    if s.len() > 0 {
        assert(forall|i: int|
            0 <= i < s.drop_last().len() ==> s.drop_last()[i] != '/');
        lemma_slash_count_zero(s.drop_last());
    }
}

/// The current absolute path of a well-formed navigator is always a
/// directory key of the catalog — after initialization and after every
/// `cd` or reset, since each of those re-establishes `wf`.
pub proof fn lemma_current_path_is_valid(cat: Catalog, nav: Navigator)
    requires
        nav.wf(cat),
    ensures
        cat.is_dir(nav.abs()),
{
    assert(nav.segs().take(nav.segs().len() as int) =~= nav.segs());
}

/// `cd ..` at the root reports "already at root" and leaves the path
/// unchanged; anywhere else it pops exactly one segment and reports the
/// new path.
pub proof fn lemma_cd_parent(cat: Catalog, segs: Seq<Seq<char>>)
    ensures
        segs.len() == 1 ==> spec_cd(cat, segs, Some(".."@)) == (
            text_line("Already at root directory. Cannot go higher."@),
            segs,
        ),
        segs.len() > 1 ==> spec_cd(cat, segs, Some(".."@)) == (
            text_line("Path changed to "@ + concat_all(segs.drop_last())),
            segs.drop_last(),
        ),
{
    reveal_strlit("..");
    reveal_strlit(".");
    reveal_strlit("./");
    reveal_strlit("../");
    lemma_slash_free(".."@);
}

/// `cd <name>` for a single-hop name: entering a listed child appends
/// exactly that segment; a name listed bare (a file) fails with
/// `FileNotDirectory`; anything else fails with `DirectoryNotFound`. In
/// the failing cases the path is unchanged.
pub proof fn lemma_cd_child(cat: Catalog, segs: Seq<Seq<char>>, w: Seq<char>)
    requires
        forall|i: int| 0 <= i < w.len() ==> w[i] != '/',
        w != "."@,
        w != ".."@,
    ensures
        cat.children_of(concat_all(segs)).contains(w + "/"@) ==> spec_cd(
            cat,
            segs,
            Some(w),
        ) == (
            text_line("Path changed to "@ + concat_all(segs.push(w + "/"@))),
            segs.push(w + "/"@),
        ),
        !cat.children_of(concat_all(segs)).contains(w + "/"@) && cat.children_of(
            concat_all(segs),
        ).contains(w) ==> spec_cd(cat, segs, Some(w)) == (
            ResultView::Failure(ErrorKind::FileNotDirectory),
            segs,
        ),
        !cat.children_of(concat_all(segs)).contains(w + "/"@) && !cat.children_of(
            concat_all(segs),
        ).contains(w) ==> spec_cd(cat, segs, Some(w)) == (
            ResultView::Failure(ErrorKind::DirectoryNotFound),
            segs,
        ),
{
    reveal_strlit(".");
    reveal_strlit("./");
    reveal_strlit("..");
    reveal_strlit("../");
    lemma_slash_free(w);
    assert(w != "./"@);
    assert(w != "../"@);
}

/// Entering a listed child directory and then going back to the parent
/// restores the segment stack exactly: `cd <name>` followed by `cd ..`
/// is the identity on the path, however often the pair is repeated.
pub proof fn lemma_enter_then_leave_round_trip(cat: Catalog, segs: Seq<Seq<char>>, w: Seq<char>)
    requires
        segs.len() >= 1,
        forall|i: int| 0 <= i < w.len() ==> w[i] != '/',
        w != "."@,
        w != ".."@,
        cat.children_of(concat_all(segs)).contains(w + "/"@),
    ensures
        spec_cd(cat, segs, Some(w)).1 == segs.push(w + "/"@),
        spec_cd(cat, spec_cd(cat, segs, Some(w)).1, Some(".."@)).1 == segs,
{
    lemma_cd_child(cat, segs, w);
    lemma_cd_parent(cat, segs.push(w + "/"@));
    assert(segs.push(w + "/"@).drop_last() =~= segs);
}

/// `ls` always lists: in any non-root directory, `..` first and `.`
/// second, followed by exactly the directory's children; at the root, no
/// `..` — `.` comes first, followed by exactly the root's children.
pub proof fn lemma_ls_parent_entry(cat: Catalog, segs: Seq<Seq<char>>)
    ensures
        crate::dispatch::spec_ls(cat, segs) is Listing,
        ({
            let rows = crate::dispatch::spec_ls(cat, segs)->Listing_0;
            let children = cat.children_of(concat_all(segs));
            if segs.len() > 1 {
                &&& rows.len() == 2 + children.len()
                &&& rows[0] == (".."@, true)
                &&& rows[1] == ("."@, true)
                &&& rows.skip(2) =~= children.map_values(
                    |c: Seq<char>| crate::dispatch::tag_entry(c),
                )
            } else {
                &&& rows.len() == 1 + children.len()
                &&& rows[0] == ("."@, true)
                &&& rows.skip(1) =~= children.map_values(
                    |c: Seq<char>| crate::dispatch::tag_entry(c),
                )
            }
        }),
{
}

/// `dog` is an exact alias of `cat`: dispatching any token list whose
/// first word is `dog` gives the same result and state as the same list
/// with `cat` in its place.
pub proof fn lemma_dog_alias_of_cat(
    cat: Catalog,
    toks: Seq<Seq<char>>,
    segs: Seq<Seq<char>>,
    th: Theme,
)
    requires
        toks.len() >= 1,
        toks[0] == "dog"@,
    ensures
        spec_dispatch(cat, toks, segs, th) == spec_dispatch(cat, toks.update(0, "cat"@), segs, th),
{
    reveal_strlit("ls");
    reveal_strlit("cd");
    reveal_strlit("pwd");
    reveal_strlit("cat");
    reveal_strlit("dog");
    reveal_strlit("help");
    reveal_strlit("exit");
    reveal_strlit("theme");
    assert("dog"@[0] == 'd');
    assert("cat"@[0] == 'c');
    assert("pwd"@[0] == 'p');
    assert("dog"@ != "pwd"@);
    assert("cat"@ != "pwd"@);
    let toks2 = toks.update(0, "cat"@);
    assert(toks2.len() == toks.len());
    assert(toks2[0] == "cat"@);
    if toks.len() >= 2 {
        assert(toks2[1] == toks[1]);
    }
}

/// Switching the theme is observable and idempotent: after `theme matrix`
/// the theme is `matrix` and a bare `theme` reports it; a second
/// `theme matrix` reports that it is already set and changes nothing.
pub proof fn lemma_theme_switch_idempotent(t: Theme)
    ensures
        spec_theme_command(t, Some("matrix"@)).1 == Theme::MatrixInspired,
        spec_theme_command(Theme::MatrixInspired, None) == (
            text_line(
                "Theme is set to `"@ + "matrix"@ + "`. To learn more, type \"theme help\""@,
            ),
            Theme::MatrixInspired,
        ),
        spec_theme_command(Theme::MatrixInspired, Some("matrix"@)) == (
            text_line("Theme is already set to `"@ + "matrix"@ + "`."@),
            Theme::MatrixInspired,
        ),
{
    reveal_strlit("terminal");
    reveal_strlit("blue");
    reveal_strlit("matrix");
    reveal_strlit("modern");
    reveal_strlit("help");
}

} // verus!
