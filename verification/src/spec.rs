//! The part of a container specification that the bridge reads.

use vstd::prelude::*;
use crate::text::same_text;

verus! {

/// One entry of a container specification's annotation map.
pub struct Annotation {
    pub key: String,
    pub value: String,
}

/// What the bridge reads of a container specification: the process
/// arguments, the environment entries (each `KEY=VALUE`), the path of the
/// filesystem root and the annotations, which may be absent altogether.
///
/// The container specification belongs to the container runtime; the bridge
/// only reads it.
pub struct ContainerSpec {
    pub args: Vec<String>,
    pub env: Vec<String>,
    pub root: String,
    pub annotations: Option<Vec<Annotation>>,
}

/// The mathematical content of a [`ContainerSpec`].
pub ghost struct ContainerSpecView {
    pub args: Seq<Seq<char>>,
    pub env: Seq<Seq<char>>,
    pub root: Seq<char>,
    pub annotations: Option<Seq<(Seq<char>, Seq<char>)>>,
}

/// The characters of each string of `v`, in order.
pub open spec fn texts(v: Seq<String>) -> Seq<Seq<char>> {
    Seq::new(v.len(), |i: int| v[i]@)
}

/// Key and value of each annotation of `v`, in order.
pub open spec fn entries(v: Seq<Annotation>) -> Seq<(Seq<char>, Seq<char>)> {
    Seq::new(v.len(), |i: int| (v[i].key@, v[i].value@))
}

/// The value of the first entry of `entries` whose key is `key`.
pub open spec fn lookup(entries: Seq<(Seq<char>, Seq<char>)>, key: Seq<char>) -> Option<
    Seq<char>,
>
    decreases entries.len(),
{
    if entries.len() == 0 {
        None
    } else if entries[0].0 == key {
        Some(entries[0].1)
    } else {
        lookup(entries.drop_first(), key)
    }
}

/// The value under `key` in an annotation map that may be absent.
pub open spec fn annotation_of(
    annotations: Option<Seq<(Seq<char>, Seq<char>)>>,
    key: Seq<char>,
) -> Option<Seq<char>> {
    match annotations {
        Some(entries) => lookup(entries, key),
        None => None,
    }
}

/// Where no entry before position `k` has the key, the lookup goes on from
/// position `k`.
pub proof fn lemma_lookup_skip(entries: Seq<(Seq<char>, Seq<char>)>, key: Seq<char>, k: int)
    requires
        0 <= k <= entries.len(),
        forall|j: int| 0 <= j < k ==> entries[j].0 != key,
    ensures
        lookup(entries, key) == lookup(entries.subrange(k, entries.len() as int), key),
    decreases k,
{
    if k == 0 {
        assert(entries.subrange(0, entries.len() as int) =~= entries);
    } else {
        let rest = entries.drop_first();
        assert forall|j: int| 0 <= j < k - 1 implies rest[j].0 != key by {
            assert(rest[j] == entries[j + 1]);
        }
        lemma_lookup_skip(rest, key, k - 1);
        assert(rest.subrange(k - 1, rest.len() as int) =~= entries.subrange(
            k,
            entries.len() as int,
        ));
    }
}

impl View for ContainerSpec {
    type V = ContainerSpecView;

    open spec fn view(&self) -> ContainerSpecView {
        ContainerSpecView {
            args: texts(self.args@),
            env: texts(self.env@),
            root: self.root@,
            annotations: match self.annotations {
                Some(v) => Some(entries(v@)),
                None => None,
            },
        }
    }
}

impl ContainerSpec {
    /// Looks an annotation up by its key. Where the key occurs more than
    /// once, the first entry counts; an absent map holds no key.
    pub fn annotation(&self, key: &str) -> (found: Option<&String>)
        ensures
            match found {
                Some(value) => annotation_of(self@.annotations, key@) == Some(value@),
                None => annotation_of(self@.annotations, key@).is_none(),
            },
    {
        match &self.annotations {
            None => None,
            Some(list) => {
                let mut i: usize = 0;
                while i < list.len()
                    invariant
                        self.annotations == Some(*list),
                        i <= list.len(),
                        forall|j: int| 0 <= j < i ==> entries(list@)[j].0 != key@,
                    decreases list.len() - i,
                {
                    if same_text(list[i].key.as_str(), key) {
                        proof {
                            let all = entries(list@);
                            lemma_lookup_skip(all, key@, i as int);
                            let tail = all.subrange(i as int, all.len() as int);
                            assert(tail[0] == all[i as int]);
                            assert(all[i as int] == (list@[i as int].key@, list@[i as int].value@));
                            assert(lookup(tail, key@) == Some(tail[0].1));
                        }
                        return Some(&list[i].value);
                    }
                    i += 1;
                }
                proof {
                    lemma_lookup_skip(entries(list@), key@, i as int);
                }
                None
            },
        }
    }
}

} // verus!
