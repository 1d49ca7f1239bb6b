//! Labeling and ordering of the repositories offered for selection: each
//! path gets a display label relative to the scan root, and the list is
//! sorted by label, lexicographically.

use vstd::prelude::*;

use vstd::seq_lib::group_to_multiset_ensures;

use crate::pipeline::{ProjectRef, ProjectView};
use crate::scheduler::project_views;

verus! {

broadcast use group_to_multiset_ensures;

/// The label of `path` under `root`: the path relative to the root.  The
/// root itself gets the empty label; a path under the root loses the root
/// and the separator between them (a root that already ends in the
/// separator, such as the filesystem root, supplies it itself); a path
/// that does not lie under the root keeps its full path as label.
pub open spec fn label_of(path: Seq<char>, root: Seq<char>) -> Seq<char> {
    if path == root {
        Seq::empty()
    } else if root.len() > 0 && path.len() > root.len() && path.subrange(0, root.len() as int)
        == root {
        if root[root.len() - 1] == '/' {
            path.subrange(root.len() as int, path.len() as int)
        } else if path[root.len() as int] == '/' {
            path.subrange(root.len() as int + 1, path.len() as int)
        } else {
            path
        }
    } else {
        path
    }
}

/// The display label of `path` under the scan root `root`.
pub fn label_for(path: &str, root: &str) -> (r: String)
    ensures
        r@ == label_of(path@, root@),
{
    let plen = path.unicode_len();
    let rlen = root.unicode_len();
    if plen == rlen {
        if path.to_owned() == root.to_owned() {
            return String::new();
        }
        return path.to_owned();
    }
    if rlen > 0 && plen > rlen {
        let prefix = path.substring_char(0, rlen);
        if prefix.to_owned() == root.to_owned() {
            if root.get_char(rlen - 1) == '/' {
                return path.substring_char(rlen, plen).to_owned();
            }
            if path.get_char(rlen) == '/' {
                return path.substring_char(rlen + 1, plen).to_owned();
            }
        }
    }
    path.to_owned()
}

/// Lexicographic order on character sequences, by code point.
pub open spec fn lex_le(a: Seq<char>, b: Seq<char>) -> bool
    decreases a.len(),
{
    if a.len() == 0 {
        true
    } else if b.len() == 0 {
        false
    } else if a[0] == b[0] {
        lex_le(a.drop_first(), b.drop_first())
    } else {
        (a[0] as u32) < (b[0] as u32)
    }
}

proof fn lemma_lex_skip(a: Seq<char>, b: Seq<char>, i: int)
    requires
        0 <= i <= a.len(),
        i <= b.len(),
        forall|j: int| 0 <= j < i ==> a[j] == b[j],
    ensures
        lex_le(a, b) == lex_le(a.skip(i), b.skip(i)),
    decreases i,
{
    if i > 0 {
        assert(a[0] == b[0]);
        assert(forall|j: int|
            0 <= j < i - 1 ==> #[trigger] a.drop_first()[j] == a[j + 1] && b.drop_first()[j] == b[
                j + 1
            ]);
        lemma_lex_skip(a.drop_first(), b.drop_first(), i - 1);
        assert(a.skip(i) =~= a.drop_first().skip(i - 1));
        assert(b.skip(i) =~= b.drop_first().skip(i - 1));
    } else {
        assert(a.skip(0) =~= a);
        assert(b.skip(0) =~= b);
    }
}

/// The order is total.
pub proof fn lemma_lex_total(a: Seq<char>, b: Seq<char>)
    ensures
        lex_le(a, b) || lex_le(b, a),
    decreases a.len(),
{
    if a.len() > 0 && b.len() > 0 {
        if a[0] == b[0] {
            lemma_lex_total(a.drop_first(), b.drop_first());
        } else {
            assert(a[0] as u32 != b[0] as u32) by {
                if a[0] as u32 == b[0] as u32 {
                    vstd::utf8::char_u32_cast(a[0], a[0] as u32);
                    vstd::utf8::char_u32_cast(b[0], b[0] as u32);
                }
            }
        }
    }
}

/// The order is transitive.
pub proof fn lemma_lex_trans(a: Seq<char>, b: Seq<char>, c: Seq<char>)
    requires
        lex_le(a, b),
        lex_le(b, c),
    ensures
        lex_le(a, c),
    decreases a.len(),
{
    if a.len() == 0 {
    } else {
        assert(b.len() > 0);
        assert(c.len() > 0);
        if a[0] == b[0] && b[0] == c[0] {
            lemma_lex_trans(a.drop_first(), b.drop_first(), c.drop_first());
        }
    }
}

/// Compare two labels in the lexicographic order.
pub fn lex_le_str(a: &str, b: &str) -> (r: bool)
    ensures
        r == lex_le(a@, b@),
{
    let alen = a.unicode_len();
    let blen = b.unicode_len();
    let mut i: usize = 0;
    while i < alen && i < blen
        invariant
            alen == a@.len(),
            blen == b@.len(),
            0 <= i <= alen,
            i <= blen,
            forall|j: int| 0 <= j < i ==> a@[j] == b@[j],
        decreases alen - i,
    {
        let ca = a.get_char(i);
        let cb = b.get_char(i);
        if ca != cb {
            proof {
                lemma_lex_skip(a@, b@, i as int);
                assert(a@.skip(i as int)[0] == ca);
                assert(b@.skip(i as int)[0] == cb);
            }
            return (ca as u32) < (cb as u32);
        }
        i = i + 1;
    }
    proof {
        lemma_lex_skip(a@, b@, if i < alen { blen as int } else { alen as int });
        if alen <= blen {
            assert(a@.skip(alen as int).len() == 0);
        } else {
            assert(b@.skip(blen as int).len() == 0);
            assert(a@.skip(blen as int).len() > 0);
        }
    }
    alen <= blen
}

/// The list is in label order.
pub open spec fn sorted_by_label(s: Seq<ProjectRef>) -> bool {
    forall|i: int, j: int|
        #![trigger s[i], s[j]]
        0 <= i < j < s.len() ==> lex_le(s[i].label@, s[j].label@)
}

/// The views of `paths` paired with their labels under `root`.
pub open spec fn labeled(paths: Seq<String>, root: Seq<char>) -> Seq<ProjectView> {
    paths.map_values(|p: String| ProjectView { path: p@, label: label_of(p@, root) })
}

fn insert_sorted(out: &mut Vec<ProjectRef>, pr: ProjectRef)
    requires
        sorted_by_label(old(out)@),
    ensures
        sorted_by_label(final(out)@),
        project_views(final(out)@).to_multiset() == project_views(old(out)@).to_multiset().insert(
            pr@,
        ),
        final(out)@.len() == old(out)@.len() + 1,
{
    let n = out.len();
    let mut pos: usize = 0;
    while pos < n && lex_le_str(out[pos].label.as_str(), pr.label.as_str())
        invariant
            n == out@.len(),
            0 <= pos <= n,
            forall|j: int| 0 <= j < pos ==> lex_le(#[trigger] out@[j].label@, pr.label@),
            out@ == old(out)@,
        decreases n - pos,
    {
        pos = pos + 1;
    }
    proof {
        if pos < n {
            lemma_lex_total(out@[pos as int].label@, pr.label@);
        }
        assert(forall|k: int| pos <= k < n ==> lex_le(pr.label@, #[trigger] out@[k].label@)) by {
            if pos < n {
                assert forall|k: int| pos <= k < n implies lex_le(
                    pr.label@,
                    #[trigger] out@[k].label@,
                ) by {
                    if k > pos {
                        lemma_lex_trans(pr.label@, out@[pos as int].label@, out@[k].label@);
                    }
                }
            }
        }
    }
    let ghost before = out@;
    let ghost prv = pr@;
    out.insert(pos, pr);
    proof {
        before.insert_ensures(pos as int, pr);
        assert(sorted_by_label(out@)) by {
            assert forall|i: int, j: int|
                #![trigger out@[i], out@[j]]
                0 <= i < j < out@.len() implies lex_le(out@[i].label@, out@[j].label@) by {
                let p = pos as int;
                if i < p && j < p {
                } else if i < p && j == p {
                } else if i < p && j > p {
                    assert(out@[j] == before[j - 1]);
                } else if i == p {
                    assert(out@[j] == before[j - 1]);
                } else {
                    assert(out@[i] == before[i - 1]);
                    assert(out@[j] == before[j - 1]);
                }
            }
        }
        let vnew = project_views(out@);
        let vold = project_views(before);
        assert(vnew =~= vold.insert(pos as int, prv));
        vold.insert_ensures(pos as int, prv);
        assert(vnew.remove(pos as int) =~= vold);
        assert(vnew.remove(pos as int).to_multiset() == vnew.to_multiset().remove(
            vnew[pos as int],
        ));
        assert(vnew[pos as int] == prv);
        assert(vnew.to_multiset().contains(prv)) by {
            assert(vnew.contains(prv));
        }
        assert(vnew.to_multiset() =~= vold.to_multiset().insert(prv));
    }
}

/// Pair each path with its label under `root` and sort the list by label:
/// the result holds, as a multiset, exactly the labeled views of the
/// inputs, in lexicographic label order.
pub fn add_labels_and_sort(paths: &Vec<String>, root: &str) -> (r: Vec<ProjectRef>)
    ensures
        r@.len() == paths@.len(),
        project_views(r@).to_multiset() == labeled(paths@, root@).to_multiset(),
        sorted_by_label(r@),
{
    let mut out: Vec<ProjectRef> = Vec::new();
    let mut k: usize = 0;
    proof {
        assert(project_views(out@) =~= Seq::<ProjectView>::empty());
        assert(labeled(paths@.take(0), root@) =~= Seq::<ProjectView>::empty());
        assert(project_views(out@).to_multiset() =~= labeled(
            paths@.take(0),
            root@,
        ).to_multiset());
    }
    while k < paths.len()
        invariant
            0 <= k <= paths@.len(),
            out@.len() == k,
            sorted_by_label(out@),
            project_views(out@).to_multiset() == labeled(paths@.take(k as int), root@)
                .to_multiset(),
        decreases paths@.len() - k,
    {
        let label = label_for(paths[k].as_str(), root);
        let pr = ProjectRef { path: paths[k].clone(), label };
        proof {
            assert(pr@ == (ProjectView {
                path: paths@[k as int]@,
                label: label_of(paths@[k as int]@, root@),
            }));
        }
        insert_sorted(&mut out, pr);
        proof {
            assert(labeled(paths@.take(k as int + 1), root@) =~= labeled(
                paths@.take(k as int),
                root@,
            ).push(
                ProjectView {
                    path: paths@[k as int]@,
                    label: label_of(paths@[k as int]@, root@),
                },
            ));
        }
        k = k + 1;
    }
    proof {
        assert(paths@.take(paths@.len() as int) =~= paths@);
    }
    out
}

} // verus!
