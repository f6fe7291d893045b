//! The recent-files list: bounded, de-duplicated, most-recent-first.
//!
//! Adding a path first removes every occurrence of it, then puts it in
//! front, then cuts the list back to [`MAX_RECENT_FILES`] entries, so the
//! newest entries stay and the oldest fall off the end.

use vstd::prelude::*;
use crate::settings::{Settings, SettingsModel, MAX_RECENT_FILES};

verus! {

/// The list with every occurrence of `p` removed, order kept.
pub open spec fn spec_remove_path(l: Seq<Seq<char>>, p: Seq<char>) -> Seq<Seq<char>>
    decreases l.len(),
{
    if l.len() == 0 {
        Seq::empty()
    } else if l[0] == p {
        spec_remove_path(l.drop_first(), p)
    } else {
        seq![l[0]] + spec_remove_path(l.drop_first(), p)
    }
}

/// The list after recording `p` as most recently used: `p` in front,
/// its old occurrences gone, at most [`MAX_RECENT_FILES`] entries kept.
pub open spec fn spec_add_recent(l: Seq<Seq<char>>, p: Seq<char>) -> Seq<Seq<char>> {
    let all = seq![p] + spec_remove_path(l, p);
    if all.len() <= MAX_RECENT_FILES {
        all
    } else {
        all.take(MAX_RECENT_FILES as int)
    }
}

/// Removal never grows the list and leaves no occurrence of `p` behind.
pub proof fn lemma_remove_path_all_differ(l: Seq<Seq<char>>, p: Seq<char>)
    ensures
        spec_remove_path(l, p).len() <= l.len(),
        forall|j: int|
            0 <= j < spec_remove_path(l, p).len() ==> spec_remove_path(l, p)[j] != p,
    decreases l.len(),
{
    if l.len() > 0 {
        lemma_remove_path_all_differ(l.drop_first(), p);
    }
}

/// Removing `p` from a list without `p` changes nothing.
pub proof fn lemma_remove_path_noop(l: Seq<Seq<char>>, p: Seq<char>)
    requires
        forall|j: int| 0 <= j < l.len() ==> l[j] != p,
    ensures
        spec_remove_path(l, p) == l,
    decreases l.len(),
{
    if l.len() > 0 {
        lemma_remove_path_noop(l.drop_first(), p);
        assert(seq![l[0]] + l.drop_first() =~= l);
    }
}

/// Removing `p` ignores a leading `p`.
pub proof fn lemma_remove_path_drop_head(s: Seq<Seq<char>>, p: Seq<char>)
    ensures
        spec_remove_path(seq![p] + s, p) == spec_remove_path(s, p),
{
    assert((seq![p] + s)[0] == p);
    assert((seq![p] + s).drop_first() =~= s);
}

/// Recording the same path twice in a row is the same as recording it
/// once: the second call finds the path in front, removes it, and puts
/// it back, keeping the same entries in the same order.
pub proof fn lemma_add_recent_idempotent(l: Seq<Seq<char>>, p: Seq<char>)
    ensures
        spec_add_recent(spec_add_recent(l, p), p) == spec_add_recent(l, p),
{
    let rem = spec_remove_path(l, p);
    lemma_remove_path_all_differ(l, p);
    let a1 = spec_add_recent(l, p);
    if (seq![p] + rem).len() <= MAX_RECENT_FILES {
        lemma_remove_path_drop_head(rem, p);
        lemma_remove_path_noop(rem, p);
        assert(spec_remove_path(a1, p) == rem);
    } else {
        let cut = rem.take(MAX_RECENT_FILES - 1);
        assert(a1 =~= seq![p] + cut);
        lemma_remove_path_drop_head(cut, p);
        assert(forall|j: int| 0 <= j < cut.len() ==> cut[j] != p);
        lemma_remove_path_noop(cut, p);
        assert(spec_remove_path(a1, p) == cut);
        assert(spec_add_recent(a1, p) =~= a1);
    }
}

/// The recorded list never exceeds the bound, starts with the path just
/// recorded, and holds it nowhere else.
pub proof fn lemma_add_recent_bounded(l: Seq<Seq<char>>, p: Seq<char>)
    ensures
        spec_add_recent(l, p).len() <= MAX_RECENT_FILES,
        spec_add_recent(l, p)[0] == p,
        forall|j: int| 1 <= j < spec_add_recent(l, p).len() ==> spec_add_recent(l, p)[j] != p,
{
    lemma_remove_path_all_differ(l, p);
}

/// Record `path` as most recently used in the settings' recent-files
/// list; every other settings field is left alone.
pub fn add_recent_file_impl(settings: &mut Settings, path: &str)
    ensures
        final(settings)@ == (SettingsModel {
            recent_files: spec_add_recent(old(settings)@.recent_files, path@),
            ..old(settings)@
        }),
{
    let path_string: String = path.to_owned();
    let front: String = path_string.clone();
    let ghost l: Seq<Seq<char>> = settings.recent_files.deep_view();
    let mut kept: Vec<String> = Vec::new();
    kept.push(front);
    let mut i: usize = 0;
    while i < settings.recent_files.len()
        invariant
            *settings == *old(settings),
            i <= settings.recent_files.len(),
            l == settings.recent_files.deep_view(),
            path_string@ == path@,
            kept.deep_view() == seq![path@] + spec_remove_path(l.take(i as int), path@),
        decreases settings.recent_files.len() - i,
    {
        let ghost prefix = l.take(i as int);
        let ghost kept_before = kept.deep_view();
        let entry: &String = &settings.recent_files[i];
        proof {
            assert(entry@ == l[i as int]);
        }
        if !(*entry == path_string) {
            kept.push(entry.clone());
            proof {
                assert(entry@ != path@);
                assert(kept@.last() == *entry);
                assert(kept.deep_view() =~= kept_before.push(entry@));
                assert(l.take(i + 1 as int) =~= prefix.push(l[i as int]));
                lemma_remove_path_snoc(prefix, l[i as int], path@);
                assert(spec_remove_path(l.take(i + 1 as int), path@) == spec_remove_path(
                    prefix,
                    path@,
                ).push(l[i as int]));
                assert(seq![path@] + spec_remove_path(prefix, path@).push(l[i as int]) =~= (
                seq![path@] + spec_remove_path(prefix, path@)).push(l[i as int]));
                assert(kept.deep_view() == seq![path@] + spec_remove_path(
                    l.take(i + 1 as int),
                    path@,
                ));
            }
        } else {
            proof {
                assert(entry@ == path@);
                assert(l.take(i + 1 as int) =~= prefix.push(l[i as int]));
                lemma_remove_path_snoc(prefix, l[i as int], path@);
                assert(spec_remove_path(l.take(i + 1 as int), path@) == spec_remove_path(
                    prefix,
                    path@,
                ));
                assert(kept.deep_view() == seq![path@] + spec_remove_path(
                    l.take(i + 1 as int),
                    path@,
                ));
            }
        }
        i += 1;
    }
    proof {
        assert(l.take(l.len() as int) =~= l);
    }
    kept.truncate(MAX_RECENT_FILES);
    settings.recent_files = kept;
    proof {
        assert(final(settings)@ =~~= (SettingsModel {
            recent_files: spec_add_recent(old(settings)@.recent_files, path@),
            ..old(settings)@
        }));
    }
}

/// Removing matches commutes with appending one element at the end.
proof fn lemma_remove_path_snoc(l: Seq<Seq<char>>, x: Seq<char>, p: Seq<char>)
    ensures
        spec_remove_path(l.push(x), p) == if x == p {
            spec_remove_path(l, p)
        } else {
            spec_remove_path(l, p).push(x)
        },
    decreases l.len(),
{
    if l.len() == 0 {
        assert(l.push(x)[0] == x);
        assert(l.push(x).drop_first() =~= Seq::<Seq<char>>::empty());
        assert(spec_remove_path(Seq::<Seq<char>>::empty(), p) == Seq::<Seq<char>>::empty());
        assert(l =~= Seq::<Seq<char>>::empty());
        if x != p {
            assert(spec_remove_path(l.push(x), p) =~= seq![x]);
            assert(spec_remove_path(l, p).push(x) =~= seq![x]);
        }
    } else {
        assert(l.push(x)[0] == l[0]);
        assert(l.push(x).drop_first() =~= l.drop_first().push(x));
        lemma_remove_path_snoc(l.drop_first(), x, p);
        if l[0] != p {
            if x != p {
                assert(seq![l[0]] + spec_remove_path(l.drop_first(), p).push(x)
                    =~= (seq![l[0]] + spec_remove_path(l.drop_first(), p)).push(x));
            }
        }
    }
}

/// Delete every occurrence of `path` from the recent-files list (used
/// when a recent file no longer exists on disk).
pub fn remove_recent_file(settings: &mut Settings, path: &str)
    ensures
        final(settings)@ == (SettingsModel {
            recent_files: spec_remove_path(old(settings)@.recent_files, path@),
            ..old(settings)@
        }),
{
    let path_string: String = path.to_owned();
    let ghost l: Seq<Seq<char>> = settings.recent_files.deep_view();
    let mut kept: Vec<String> = Vec::new();
    let mut i: usize = 0;
    while i < settings.recent_files.len()
        invariant
            *settings == *old(settings),
            i <= settings.recent_files.len(),
            l == settings.recent_files.deep_view(),
            path_string@ == path@,
            kept.deep_view() == spec_remove_path(l.take(i as int), path@),
        decreases settings.recent_files.len() - i,
    {
        let ghost prefix = l.take(i as int);
        let ghost kept_before = kept.deep_view();
        let entry: &String = &settings.recent_files[i];
        proof {
            assert(entry@ == l[i as int]);
        }
        if !(*entry == path_string) {
            kept.push(entry.clone());
            proof {
                assert(kept@.last() == *entry);
                assert(kept.deep_view() =~= kept_before.push(entry@));
            }
        }
        proof {
            assert(l.take(i + 1 as int) =~= prefix.push(l[i as int]));
            lemma_remove_path_snoc(prefix, l[i as int], path@);
        }
        i += 1;
    }
    proof {
        assert(l.take(l.len() as int) =~= l);
    }
    settings.recent_files = kept;
    proof {
        assert(final(settings)@ =~~= (SettingsModel {
            recent_files: spec_remove_path(old(settings)@.recent_files, path@),
            ..old(settings)@
        }));
    }
}

/// Empty the recent-files list; every other settings field is left alone.
pub fn clear_recent_files_impl(settings: &mut Settings)
    ensures
        final(settings)@ == (SettingsModel { recent_files: Seq::empty(), ..old(settings)@ }),
{
    settings.recent_files.clear();
    proof {
        assert(final(settings)@ =~~= (SettingsModel {
            recent_files: Seq::empty(),
            ..old(settings)@
        }));
    }
}

} // verus!
