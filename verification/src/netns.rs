//! The network namespace gateway: the registry of namespaces this runtime
//! created and has not yet deleted.
//!
//! The gateway owns a namespace between `create` and `delete`; the container
//! child only borrows it by joining the path. A create of a name that is
//! already registered and a delete of a name that is not are reportable
//! errors, never silently ignored, so orchestration bugs surface.

use vstd::prelude::*;
use vstd::string::*;
use crate::errors::RuntimeError;
use crate::names::{netns_name, netns_path, spec_netns_name, spec_netns_path};
use crate::strutil::str_eq;

verus! {

/// A kernel network namespace this runtime created: its registered name,
/// `ns-<id>`, and the path under the namespace directory where it is
/// discoverable.
#[derive(Debug, Clone)]
pub struct NetworkNamespaceHandle {
    pub name: String,
    pub path: String,
}

/// Whether some registered id equals `id`.
pub open spec fn spec_contains_id(ids: Seq<Seq<char>>, id: Seq<char>) -> bool {
    exists|i: int| 0 <= i < ids.len() && ids[i] == id
}

/// Whether no id is registered twice.
pub open spec fn spec_ids_distinct(ids: Seq<Seq<char>>) -> bool {
    forall|i: int, j: int| 0 <= i < j < ids.len() ==> ids[i] != ids[j]
}

/// The registry after deleting `id`: the first occurrence of `id` is gone,
/// everything else keeps its order.
pub open spec fn spec_remove_id(ids: Seq<Seq<char>>, id: Seq<char>) -> Seq<Seq<char>>
    decreases ids.len(),
{
    if ids.len() == 0 {
        ids
    } else if ids[0] == id {
        ids.drop_first()
    } else {
        seq![ids[0]] + spec_remove_id(ids.drop_first(), id)
    }
}

/// Removing an id that registered only once leaves a registry in which it
/// is no longer found, so deleting the same namespace a second time must
/// fail with `NamespaceDeleteError` rather than silently succeed.
pub proof fn lemma_second_delete_finds_nothing(ids: Seq<Seq<char>>, id: Seq<char>)
    requires
        spec_ids_distinct(ids),
    ensures
        !spec_contains_id(spec_remove_id(ids, id), id),
    decreases ids.len(),
{
    if ids.len() == 0 {
    } else if ids[0] == id {
        let rest = ids.drop_first();
        assert forall|i: int| 0 <= i < rest.len() implies rest[i] != id by {
            assert(ids[0] != ids[i + 1]);
        }
    } else {
        let rest = ids.drop_first();
        assert(spec_ids_distinct(rest)) by {
            assert forall|i: int, j: int| 0 <= i < j < rest.len() implies rest[i] != rest[j] by {
                assert(ids[i + 1] != ids[j + 1]);
            }
        }
        lemma_second_delete_finds_nothing(rest, id);
        let out = seq![ids[0]] + spec_remove_id(rest, id);
        assert forall|i: int| 0 <= i < out.len() implies out[i] != id by {
            if i > 0 {
                assert(out[i] == spec_remove_id(rest, id)[i - 1]);
                assert(spec_contains_id(spec_remove_id(rest, id), id) || spec_remove_id(
                    rest,
                    id,
                )[i - 1] != id);
            }
        }
    }
}

/// Removal keeps distinctness and never grows the registry.
pub proof fn lemma_remove_id_distinct(ids: Seq<Seq<char>>, id: Seq<char>)
    requires
        spec_ids_distinct(ids),
    ensures
        spec_ids_distinct(spec_remove_id(ids, id)),
        spec_remove_id(ids, id).len() <= ids.len(),
    decreases ids.len(),
{
    if ids.len() == 0 {
    } else if ids[0] == id {
        let rest = ids.drop_first();
        assert forall|i: int, j: int| 0 <= i < j < rest.len() implies rest[i] != rest[j] by {
            assert(ids[i + 1] != ids[j + 1]);
        }
    } else {
        let rest = ids.drop_first();
        assert(spec_ids_distinct(rest)) by {
            assert forall|i: int, j: int| 0 <= i < j < rest.len() implies rest[i] != rest[j] by {
                assert(ids[i + 1] != ids[j + 1]);
            }
        }
        lemma_remove_id_distinct(rest, id);
        let tail = spec_remove_id(rest, id);
        let out = seq![ids[0]] + tail;
        lemma_remove_id_keeps_members(rest, id);
        assert forall|i: int, j: int| 0 <= i < j < out.len() implies out[i] != out[j] by {
            if i == 0 {
                assert(out[j] == tail[j - 1]);
                assert(spec_contains_id(rest, tail[j - 1]));
                let w = choose|w: int| 0 <= w < rest.len() && rest[w] == tail[j - 1];
                assert(ids[0] != ids[w + 1]);
            } else {
                assert(out[i] == tail[i - 1] && out[j] == tail[j - 1]);
            }
        }
    }
}

/// Every id left after a removal was registered before it.
pub proof fn lemma_remove_id_keeps_members(ids: Seq<Seq<char>>, id: Seq<char>)
    ensures
        forall|x: Seq<char>|
            spec_contains_id(#[trigger] spec_remove_id(ids, id), x) ==> spec_contains_id(ids, x),
    decreases ids.len(),
{
    if ids.len() == 0 {
    } else if ids[0] == id {
        let rest = ids.drop_first();
        assert forall|x: Seq<char>| spec_contains_id(rest, x) implies spec_contains_id(ids, x) by {
            let w = choose|w: int| 0 <= w < rest.len() && rest[w] == x;
            assert(ids[w + 1] == x);
        }
    } else {
        let rest = ids.drop_first();
        lemma_remove_id_keeps_members(rest, id);
        let tail = spec_remove_id(rest, id);
        let out = seq![ids[0]] + tail;
        assert forall|x: Seq<char>| spec_contains_id(out, x) implies spec_contains_id(ids, x) by {
            let w = choose|w: int| 0 <= w < out.len() && out[w] == x;
            if w == 0 {
                assert(ids[0] == x);
            } else {
                assert(tail[w - 1] == x);
                assert(spec_contains_id(rest, x));
                let u = choose|u: int| 0 <= u < rest.len() && rest[u] == x;
                assert(ids[u + 1] == x);
            }
        }
    }
}

/// Creates and deletes named network namespaces, and remembers which ids it
/// currently owns. The kernel-side work is the caller's; the gateway is the
/// bookkeeping that decides whether an operation is legal and what name and
/// path it concerns.
pub struct NamespaceGateway {
    ids: Vec<String>,
}

impl NamespaceGateway {
    /// The currently registered container ids, in creation order.
    pub closed spec fn ids_view(&self) -> Seq<Seq<char>> {
        self.ids.deep_view()
    }

    /// No id is registered twice.
    pub open spec fn wf(&self) -> bool {
        spec_ids_distinct(self.ids_view())
    }

    /// A gateway that owns no namespace yet.
    pub fn new() -> (g: Self)
        ensures
            g.wf(),
            g.ids_view() == Seq::<Seq<char>>::empty(),
    {
        let g = NamespaceGateway { ids: Vec::new() };
        proof {
            assert(g.ids_view() =~= Seq::<Seq<char>>::empty());
        }
        g
    }

    /// Whether a namespace for `id` is currently registered.
    pub fn contains(&self, id: &str) -> (r: bool)
        ensures
            r == spec_contains_id(self.ids_view(), id@),
    {
        let n = self.ids.len();
        let mut i: usize = 0;
        while i < n
            invariant
                n == self.ids.len(),
                i <= n,
                forall|j: int| 0 <= j < i ==> self.ids_view()[j] != id@,
            decreases n - i,
        {
            if str_eq(self.ids[i].as_str(), id) {
                proof {
                    assert(self.ids_view()[i as int] == id@);
                }
                return true;
            }
            i += 1;
        }
        false
    }

    /// Registers a namespace for `id` and derives its handle. Fails with
    /// `NamespaceCreateError`, changing nothing, exactly when a namespace of
    /// that name is already registered.
    pub fn create(&mut self, id: &str) -> (r: Result<NetworkNamespaceHandle, RuntimeError>)
        requires
            old(self).wf(),
        ensures
            final(self).wf(),
            spec_contains_id(old(self).ids_view(), id@) ==> r == Err::<
                NetworkNamespaceHandle,
                RuntimeError,
            >(RuntimeError::NamespaceCreateError) && final(self).ids_view() == old(
                self,
            ).ids_view(),
            !spec_contains_id(old(self).ids_view(), id@) ==> match r {
                Ok(h) => h.name@ == spec_netns_name(id@) && h.path@ == spec_netns_path(id@)
                    && final(self).ids_view() == old(self).ids_view().push(id@),
                Err(_) => false,
            },
    {
        if self.contains(id) {
            return Err(RuntimeError::NamespaceCreateError);
        }
        let ghost pre = self.ids_view();
        self.ids.push(String::from_str(id));
        proof {
            assert(self.ids_view() =~= pre.push(id@));
            assert forall|i: int, j: int|
                0 <= i < j < self.ids_view().len() implies self.ids_view()[i]
                != self.ids_view()[j] by {
                if j == pre.len() {
                    assert(!spec_contains_id(pre, id@));
                    assert(pre[i] != id@);
                }
            }
        }
        Ok(NetworkNamespaceHandle { name: netns_name(id), path: netns_path(id) })
    }

    /// Unregisters the namespace for `id`. Fails with
    /// `NamespaceDeleteError`, changing nothing, exactly when no namespace
    /// of that name is registered — in particular on a second delete of the
    /// same id.
    pub fn delete(&mut self, id: &str) -> (r: Result<(), RuntimeError>)
        requires
            old(self).wf(),
        ensures
            final(self).wf(),
            !spec_contains_id(old(self).ids_view(), id@) ==> r == Err::<(), RuntimeError>(
                RuntimeError::NamespaceDeleteError,
            ) && final(self).ids_view() == old(self).ids_view(),
            spec_contains_id(old(self).ids_view(), id@) ==> r == Ok::<(), RuntimeError>(())
                && final(self).ids_view() == spec_remove_id(old(self).ids_view(), id@)
                && !spec_contains_id(final(self).ids_view(), id@),
    {
        let ghost pre = self.ids_view();
        let n = self.ids.len();
        let mut i: usize = 0;
        while i < n
            invariant
                old(self) == self,
                pre == self.ids_view(),
                spec_ids_distinct(pre),
                n == self.ids.len(),
                i <= n,
                forall|j: int| 0 <= j < i ==> self.ids_view()[j] != id@,
            decreases n - i,
        {
            if str_eq(self.ids[i].as_str(), id) {
                proof {
                    assert(pre[i as int] == id@);
                }
                self.ids.remove(i);
                proof {
                    lemma_remove_at_first_match(pre, id@, i as int);
                    assert(self.ids_view() =~= pre.remove(i as int));
                    lemma_remove_id_distinct(pre, id@);
                    lemma_second_delete_finds_nothing(pre, id@);
                }
                return Ok(());
            }
            i += 1;
        }
        Err(RuntimeError::NamespaceDeleteError)
    }

    /// How many namespaces are currently registered.
    pub fn count(&self) -> (n: usize)
        ensures
            n == self.ids_view().len(),
    {
        self.ids.len()
    }
}

/// Removing the first matching index is what `spec_remove_id` describes.
pub proof fn lemma_remove_at_first_match(ids: Seq<Seq<char>>, id: Seq<char>, i: int)
    requires
        0 <= i < ids.len(),
        ids[i] == id,
        forall|j: int| 0 <= j < i ==> ids[j] != id,
    ensures
        ids.remove(i) =~= spec_remove_id(ids, id),
    decreases i,
{
    if i == 0 {
        assert(ids.remove(0) =~= ids.drop_first());
    } else {
        let rest = ids.drop_first();
        assert forall|j: int| 0 <= j < i - 1 implies rest[j] != id by {
            assert(ids[j + 1] != id);
        }
        lemma_remove_at_first_match(rest, id, i - 1);
        assert(ids.remove(i) =~= seq![ids[0]] + rest.remove(i - 1));
    }
}

} // verus!
