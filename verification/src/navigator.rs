//! The path navigator: the session's current directory, held as an ordered
//! stack of segments.
//!
//! Segment 0 is always `"/"`; every later segment is a child name with its
//! trailing `/`. The concatenation of all segments is the current absolute
//! directory path, and the navigator's invariant keeps every prefix of the
//! stack a valid directory key of the catalog, so the current path (and
//! every path reachable by popping) always resolves.

use vstd::prelude::*;

verus! {

use crate::catalog::Catalog;
use crate::outcome::ErrorKind;

/// The concatenation of a sequence of segments, in order.
pub open spec fn concat_all(ss: Seq<Seq<char>>) -> Seq<char>
    decreases ss.len(),
{
    if ss.len() == 0 {
        Seq::empty()
    } else {
        concat_all(ss.drop_last()) + ss.last()
    }
}

/// Holds the current path of one session as a stack of segments.
pub struct Navigator {
    pub segments: Vec<String>,
}

impl Navigator {
    /// The segment stack, as a sequence of character sequences.
    pub open spec fn segs(self) -> Seq<Seq<char>> {
        self.segments.deep_view()
    }

    /// The current absolute directory path.
    pub open spec fn abs(self) -> Seq<char> {
        concat_all(self.segs())
    }

    /// Navigator invariant: the stack starts at the root and every prefix
    /// of it concatenates to a directory key of `cat`. In particular the
    /// current absolute path is always a valid directory key.
    pub open spec fn wf(self, cat: Catalog) -> bool {
        &&& self.segs().len() >= 1
        &&& self.segs()[0] == "/"@
        &&& forall|k: int|
            1 <= k <= self.segs().len() ==> cat.is_dir(
                #[trigger] concat_all(self.segs().take(k)),
            )
    }

    /// A fresh navigator positioned at the root.
    pub fn new(cat: &Catalog) -> (r: Navigator)
        requires
            cat.wf(),
        ensures
            r.segs() =~= seq!["/"@],
            r.abs() == "/"@,
            r.wf(*cat),
    {
        let mut segments: Vec<String> = Vec::new();
        segments.push("/".to_owned());
        let r = Navigator { segments };
        assert(r.segs() =~= seq!["/"@]);
        proof {
            lemma_singleton_concat("/"@);
            assert forall|k: int| 1 <= k <= r.segs().len() implies cat.is_dir(
                #[trigger] concat_all(r.segs().take(k)),
            ) by {
                assert(r.segs().take(1) =~= seq!["/"@]);
            }
        }
        r
    }

    /// The current absolute path, as a string.
    pub fn current_absolute_path(&self) -> (r: String)
        ensures
            r@ == self.abs(),
    {
        let mut r = String::new();
        let mut i: usize = 0;
        while i < self.segments.len()
            invariant
                0 <= i <= self.segments.len(),
                r@ == concat_all(self.segs().take(i as int)),
            decreases self.segments.len() - i,
        {
            assert(self.segments[i as int]@ == self.segs()[i as int]);
            r.append(self.segments[i].as_str());
            assert(self.segs().take(i as int + 1).drop_last() =~= self.segs().take(
                i as int,
            ));
            i = i + 1;
        }
        assert(self.segs().take(self.segments.len() as int) =~= self.segs());
        r
    }

    /// Descends into the child directory `name` of the current directory.
    ///
    /// Fails with `DirectoryNotFound` if `name/` is not among the current
    /// directory's children, and with `FileNotDirectory` if the bare name
    /// is listed instead (the entry exists but is a file). On success the
    /// segment `name/` is pushed.
    pub fn enter(&mut self, cat: &Catalog, name: &str) -> (r: Result<(), ErrorKind>)
        requires
            old(self).wf(*cat),
            cat.wf(),
        ensures
            final(self).wf(*cat),
            ({
                let cs = cat.children_of(old(self).abs());
                if cs.contains(name@ + "/"@) {
                    &&& r is Ok
                    &&& final(self).segs() == old(self).segs().push(name@ + "/"@)
                } else if cs.contains(name@) {
                    &&& r == Err::<(), ErrorKind>(ErrorKind::FileNotDirectory)
                    &&& final(self).segs() == old(self).segs()
                } else {
                    &&& r == Err::<(), ErrorKind>(ErrorKind::DirectoryNotFound)
                    &&& final(self).segs() == old(self).segs()
                }
            }),
    {
        proof {
            assert(self.segs().take(self.segs().len() as int) =~= self.segs());
        }
        let path = self.current_absolute_path();
        let dir_form = name.to_owned().concat("/");
        let bare = name.to_owned();
        let ghost cs = cat.children_of(self.abs());
        match cat.list_children(path.as_str()) {
            Err(_) => {
                // Unreachable: the invariant makes the current path a key.
                assert(false);
                Err(ErrorKind::PathNotFound)
            },
            Ok(children) => {
                let mut found_dir: bool = false;
                let mut found_bare: bool = false;
                let n = children.len();
                let mut i: usize = 0;
                while i < n
                    invariant
                        0 <= i <= n,
                        n == cs.len(),
                        children.deep_view() == cs,
                        found_dir == cs.take(i as int).contains(name@ + "/"@),
                        found_bare == cs.take(i as int).contains(name@),
                        dir_form@ == name@ + "/"@,
                        bare@ == name@,
                    decreases n - i,
                {
                    assert(children[i as int]@ == cs[i as int]);
                    if children[i] == dir_form {
                        found_dir = true;
                    }
                    if children[i] == bare {
                        found_bare = true;
                    }
                    assert(cs.take(i as int + 1).drop_last() =~= cs.take(i as int));
                    assert(cs.take(i as int + 1).contains(name@ + "/"@) <==> (cs.take(
                        i as int,
                    ).contains(name@ + "/"@) || cs[i as int] == name@ + "/"@)) by {
                        lemma_take_one_more_contains(cs, name@ + "/"@, i as int);
                    }
                    assert(cs.take(i as int + 1).contains(name@) <==> (cs.take(
                        i as int,
                    ).contains(name@) || cs[i as int] == name@)) by {
                        lemma_take_one_more_contains(cs, name@, i as int);
                    }
                    i = i + 1;
                }
                assert(cs.take(n as int) =~= cs);
                if found_dir {
                    let ghost old_segs = self.segs();
                    self.segments.push(dir_form);
                    assert(self.segs() =~= old_segs.push(name@ + "/"@));
                    proof {
                        reveal_strlit("/");
                        assert((name@ + "/"@).last() == '/');
                        self.lemma_wf_after_push(*cat, *old(self), name@ + "/"@);
                    }
                    Ok(())
                } else if found_bare {
                    Err(ErrorKind::FileNotDirectory)
                } else {
                    Err(ErrorKind::DirectoryNotFound)
                }
            },
        }
    }

    /// Pops the last segment, moving to the parent directory. At the root
    /// there is nothing to pop: returns false and leaves the path alone.
    /// The catalog is only consulted by the contract, as the witness that
    /// the shorter path is still a valid directory key.
    pub fn leave(&mut self, cat: &Catalog) -> (popped: bool)
        requires
            old(self).wf(*cat),
        ensures
            final(self).wf(*cat),
            old(self).segs().len() == 1 ==> !popped && final(self).segs() == old(
                self,
            ).segs(),
            old(self).segs().len() > 1 ==> popped && final(self).segs() == old(
                self,
            ).segs().drop_last(),
    {
        if self.segments.len() <= 1 {
            assert(self.segs() == old(self).segs());
            false
        } else {
            let ghost old_segs = self.segs();
            self.segments.pop();
            assert(self.segs() =~= old_segs.drop_last());
            proof {
                assert forall|k: int| 1 <= k <= self.segs().len() implies cat.is_dir(
                    #[trigger] concat_all(self.segs().take(k)),
                ) by {
                    assert(self.segs().take(k) =~= old_segs.take(k));
                }
            }
            true
        }
    }

    /// Truncates the stack to the root segment alone.
    pub fn reset_to_root(&mut self, cat: &Catalog)
        requires
            cat.wf(),
        ensures
            final(self).segs() =~= seq!["/"@],
            final(self).abs() == "/"@,
            final(self).wf(*cat),
    {
        let fresh = Navigator::new(cat);
        self.segments = fresh.segments;
        assert(self.segs() =~= seq!["/"@]);
        proof {
            lemma_singleton_concat("/"@);
            assert forall|k: int| 1 <= k <= self.segs().len() implies cat.is_dir(
                #[trigger] concat_all(self.segs().take(k)),
            ) by {
                assert(self.segs().take(1) =~= seq!["/"@]);
            }
        }
    }

    /// Pushing a listed child directory keeps every prefix a catalog key.
    proof fn lemma_wf_after_push(self, cat: Catalog, prev: Navigator, seg: Seq<char>)
        requires
            prev.wf(cat),
            cat.wf(),
            cat.children_of(prev.abs()).contains(seg),
            seg.len() > 0,
            seg.last() == '/',
            self.segs() == prev.segs().push(seg),
        ensures
            self.wf(cat),
    {
        assert(prev.segs().take(prev.segs().len() as int) =~= prev.segs());
        let j = choose|j: int|
            0 <= j < cat.children_of(prev.abs()).len() && #[trigger] cat.children_of(
                prev.abs(),
            )[j] == seg;
        assert(cat.child_ok(prev.abs(), seg));
        assert(self.segs()[0] == "/"@);
        assert forall|k: int| 1 <= k <= self.segs().len() implies cat.is_dir(
            #[trigger] concat_all(self.segs().take(k)),
        ) by {
            if k <= prev.segs().len() {
                assert(self.segs().take(k) =~= prev.segs().take(k));
            } else {
                assert(self.segs().take(k) =~= self.segs());
                assert(self.segs().drop_last() =~= prev.segs());
                assert(concat_all(self.segs()) == prev.abs() + seg);
            }
        }
    }
}

/// The concatenation of a single segment is that segment.
pub proof fn lemma_singleton_concat(s: Seq<char>)
    ensures
        concat_all(seq![s]) == s,
{
    assert(seq![s].drop_last() =~= Seq::<Seq<char>>::empty());
    assert(concat_all(Seq::<Seq<char>>::empty()) == Seq::<char>::empty());
    assert(seq![s].last() == s);
    assert(concat_all(seq![s]) == Seq::<char>::empty() + s);
    assert(Seq::<char>::empty() + s =~= s);
}

/// Membership in one more element of a prefix.
proof fn lemma_take_one_more_contains(ss: Seq<Seq<char>>, x: Seq<char>, i: int)
    requires
        0 <= i < ss.len(),
    ensures
        ss.take(i + 1).contains(x) <==> (ss.take(i).contains(x) || ss[i] == x),
{
    if ss.take(i + 1).contains(x) {
        let j = choose|j: int| 0 <= j < ss.take(i + 1).len() && #[trigger] ss.take(i + 1)[j] == x;
        if j < i {
            assert(ss.take(i)[j] == x);
        }
    }
    if ss.take(i).contains(x) {
        let j = choose|j: int| 0 <= j < ss.take(i).len() && #[trigger] ss.take(i)[j] == x;
        assert(ss.take(i + 1)[j] == x);
    }
    if ss[i] == x {
        assert(ss.take(i + 1)[i] == x);
    }
}

} // verus!
