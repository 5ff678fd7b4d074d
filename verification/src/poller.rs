//! Watching subscribed resources for changes: the digest last seen of each, and which of them
//! changed since.
use vstd::prelude::*;
use crate::json::{Json, is_object, text_at, key_at, val_at};
use crate::session::{resource_updated_notification, strictly_ascending};
use crate::sorted_map::{keys_sorted, lookup, has_key, key_at as entry_at, lemma_lookup_at, find_key, upsert, remove_key};
use crate::text::{seq_lt, text_views};

verus! {

/// The digest last seen of each watched resource address.
#[derive(Debug)]
pub struct ResourceSubscriptionPoller {
    pub digests: Vec<(String, u64)>,
}

/// `{"jsonrpc": "2.0", "method": "notifications/resources/updated", "params": {"uri": uri}}`.
pub open spec fn update_notification_is(j: Json, uri: Seq<char>) -> bool {
    &&& is_object(j, 3)
    &&& text_at(j, 0, "jsonrpc"@, "2.0"@)
    &&& text_at(j, 1, "method"@, "notifications/resources/updated"@)
    &&& key_at(j, 2, "params"@) && is_object(val_at(j, 2), 1) && text_at(val_at(j, 2), 0, "uri"@, uri)
}

/// The subscribed addresses whose digest was seen before and differs now, in order.
pub open spec fn changed(seen: Seq<(String, u64)>, subscriptions: Seq<Seq<char>>, digests: Seq<u64>) -> Seq<
    Seq<char>,
>
    decreases subscriptions.len(),
{
    if subscriptions.len() == 0 || digests.len() != subscriptions.len() {
        Seq::empty()
    } else {
        let rest = changed(seen, subscriptions.drop_last(), digests.drop_last());
        match lookup(seen, subscriptions.last()) {
            Some(p) => if p != digests.last() {
                rest.push(subscriptions.last())
            } else {
                rest
            },
            None => rest,
        }
    }
}

impl ResourceSubscriptionPoller {
    pub open spec fn wf(&self) -> bool {
        keys_sorted(self.digests@)
    }

    /// The digest last seen of `uri`, if it is watched.
    pub open spec fn seen(&self, uri: Seq<char>) -> Option<u64> {
        lookup(self.digests@, uri)
    }

    /// A poller that watches nothing.
    pub fn new() -> (r: ResourceSubscriptionPoller)
        ensures
            r.wf(),
            forall|q: Seq<char>| #[trigger] r.seen(q) is None,
    {
        ResourceSubscriptionPoller { digests: Vec::new() }
    }

    /// Starts watching `uri`, whose digest is now `digest`.
    pub fn track(&mut self, uri: &str, digest: u64)
        requires
            old(self).wf(),
        ensures
            final(self).wf(),
            final(self).seen(uri@) == Some(digest),
            forall|q: Seq<char>| q != uri@ ==> #[trigger] final(self).seen(q) == old(self).seen(q),
    {
        upsert(&mut self.digests, String::from_str(uri), digest);
    }

    /// Stops watching `uri`.
    pub fn untrack(&mut self, uri: &str)
        requires
            old(self).wf(),
        ensures
            final(self).wf(),
            final(self).seen(uri@) is None,
            forall|q: Seq<char>| q != uri@ ==> #[trigger] final(self).seen(q) == old(self).seen(q),
    {
        let _ = remove_key(&mut self.digests, uri);
    }

    /// Given the digest of each subscribed address now (`digests[i]` of `subscriptions[i]`):
    /// forgets the addresses no longer subscribed, records the new digests, and gives a
    /// notification for each address seen before whose digest changed, in order.
    pub fn collect_notifications(&mut self, subscriptions: &Vec<String>, digests: &Vec<u64>) -> (r:
        Vec<Json>)
        requires
            old(self).wf(),
            strictly_ascending(text_views(subscriptions@)),
            digests@.len() == subscriptions@.len(),
        ensures
            final(self).wf(),
            forall|i: int|
                0 <= i < subscriptions@.len() ==> #[trigger] final(self).seen(subscriptions@[i]@)
                    == Some(digests@[i]),
            forall|q: Seq<char>|
                !text_views(subscriptions@).contains(q) ==> #[trigger] final(self).seen(q) is None,
            r@.len() == changed(old(self).digests@, text_views(subscriptions@), digests@).len(),
            forall|k: int|
                0 <= k < r@.len() ==> update_notification_is(
                    #[trigger] r@[k],
                    changed(old(self).digests@, text_views(subscriptions@), digests@)[k],
                ),
    {
        let ghost old_map = self.digests@;
        let ghost subs = text_views(subscriptions@);
        let mut fresh: Vec<(String, u64)> = Vec::new();
        let mut out: Vec<Json> = Vec::new();
        let mut i: usize = 0;
        while i < subscriptions.len()
            invariant
                i <= subscriptions@.len(),
                digests@.len() == subscriptions@.len(),
                subs == text_views(subscriptions@),
                strictly_ascending(subs),
                old_map == self.digests@,
                keys_sorted(old_map),
                fresh@.len() == i,
                forall|j: int| 0 <= j < i ==> (#[trigger] fresh@[j]).0@ == subs[j] && fresh@[j].1 == digests@[j],
                out@.len() == changed(old_map, subs.take(i as int), digests@.take(i as int)).len(),
                forall|k: int|
                    0 <= k < out@.len() ==> update_notification_is(
                        #[trigger] out@[k],
                        changed(old_map, subs.take(i as int), digests@.take(i as int))[k],
                    ),
            decreases subscriptions@.len() - i,
        {
            let uri = subscriptions[i].as_str();
            let d = digests[i];
            let ghost before = changed(old_map, subs.take(i as int), digests@.take(i as int));
            proof {
                assert(subs.take(i + 1).drop_last() =~= subs.take(i as int));
                assert(digests@.take(i + 1).drop_last() =~= digests@.take(i as int));
                assert(subs.take(i + 1).last() == uri@);
                assert(digests@.take(i + 1).last() == d);
            }
            match find_key(&self.digests, uri) {
                Some(p) => {
                    proof {
                        lemma_lookup_at(old_map, p as int, uri@);
                    }
                    if self.digests[p].1 != d {
                        let ghost mid = out@;
                        out.push(resource_updated_notification(uri));
                        proof {
                            assert forall|k: int| 0 <= k < out@.len() implies update_notification_is(
                                #[trigger] out@[k],
                                changed(old_map, subs.take(i + 1), digests@.take(i + 1))[k],
                            ) by {
                                if k < mid.len() {
                                    assert(out@[k] == mid[k]);
                                }
                            }
                        }
                    }
                },
                None => {},
            }
            fresh.push((String::from_str(uri), d));
            i = i + 1;
        }
        proof {
            assert(subs.take(subs.len() as int) =~= subs);
            assert(digests@.take(digests@.len() as int) =~= digests@);
            assert(keys_sorted(fresh@)) by {
                assert forall|a: int, b: int| 0 <= a < b < fresh@.len() implies seq_lt(
                    #[trigger] fresh@[a].0@,
                    #[trigger] fresh@[b].0@,
                ) by {
                    assert(subs[a] == fresh@[a].0@ && subs[b] == fresh@[b].0@);
                }
            }
            assert forall|j: int| 0 <= j < subscriptions@.len() implies #[trigger] lookup(
                fresh@,
                subscriptions@[j]@,
            ) == Some(digests@[j]) by {
                assert(subs[j] == subscriptions@[j]@);
                assert(entry_at(fresh@, j, subscriptions@[j]@));
                lemma_lookup_at(fresh@, j, subscriptions@[j]@);
            }
            assert forall|q: Seq<char>| !subs.contains(q) implies #[trigger] lookup(fresh@, q) is None by {
                if has_key(fresh@, q) {
                    let j = choose|j: int| #[trigger] entry_at(fresh@, j, q);
                    assert(subs[j] == q);
                }
            }
        }
        self.digests = fresh;
        out
    }
}

} // verus!
