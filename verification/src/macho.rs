//! What a Mach-O symbol file tells about itself: its architecture slices,
//! each with its build identifier, and whether it carries debug information.

use vstd::prelude::*;

verus! {

/// One architecture slice of a symbol file.
#[derive(Debug)]
pub struct Architecture {
    /// The slice's build identifier, as a big-endian 128-bit number.
    pub uuid: u128,
    /// The architecture's label, such as `arm64`.
    pub name: String,
}

/// The slices stand in strictly rising order of their build identifiers.
pub open spec fn ascending(s: Seq<Architecture>) -> bool {
    forall|i: int, j: int| 0 <= i < j < s.len() ==> s[i].uuid < s[j].uuid
}

/// Some slice of `s` has the build identifier `uuid`.
pub open spec fn has_slice(s: Seq<Architecture>, uuid: u128) -> bool {
    exists|i: int| 0 <= i < s.len() && #[trigger] s[i].uuid == uuid
}

/// Some slice of `s` has the build identifier `uuid` and the label `name`.
pub open spec fn labels(s: Seq<Architecture>, uuid: u128, name: Seq<char>) -> bool {
    exists|i: int| 0 <= i < s.len() && #[trigger] s[i].uuid == uuid && s[i].name@ == name
}

/// The slice of `s` that counts for the build identifier `uuid`, the last
/// one that has it, is labelled `name`.
pub open spec fn last_label(s: Seq<Architecture>, uuid: u128, name: Seq<char>) -> bool {
    exists|i: int|
        0 <= i < s.len() && #[trigger] s[i].uuid == uuid && s[i].name@ == name && forall|j: int|
            i < j < s.len() ==> s[j].uuid != uuid
}

/// The summary of one symbol file: a mapping from build identifier to
/// architecture label, kept in rising order of the identifiers, and never
/// empty.
#[derive(Debug)]
pub struct MachoInfo {
    architectures: Vec<Architecture>,
    has_debug_info: bool,
}

impl MachoInfo {
    /// The slices, in the order in which they are reported.
    pub closed spec fn slices(&self) -> Seq<Architecture> {
        self.architectures@
    }

    /// Whether the file carries debug information beyond symbol names.
    pub closed spec fn spec_has_debug_info(&self) -> bool {
        self.has_debug_info
    }

    /// The invariant of the type: at least one slice, and no build
    /// identifier twice.
    pub open spec fn wf(&self) -> bool {
        self.slices().len() > 0 && ascending(self.slices())
    }

    /// The summary of a file with a single slice.
    pub fn new(uuid: u128, name: String, has_debug_info: bool) -> (mi: MachoInfo)
        ensures
            mi.wf(),
            mi.slices() == seq![(Architecture { uuid, name })],
            mi.spec_has_debug_info() == has_debug_info,
    {
        let mut architectures: Vec<Architecture> = Vec::new();
        architectures.push(Architecture { uuid, name });
        MachoInfo { architectures, has_debug_info }
    }

    /// Records one more slice. A slice with a build identifier that is
    /// already known replaces the earlier one.
    pub fn add_architecture(&mut self, uuid: u128, name: String)
        requires
            old(self).wf(),
        ensures
            final(self).wf(),
            final(self).spec_has_debug_info() == old(self).spec_has_debug_info(),
            labels(final(self).slices(), uuid, name@),
            forall|u: u128, n: Seq<char>|
                u != uuid ==> (#[trigger] labels(final(self).slices(), u, n) <==> labels(
                    old(self).slices(),
                    u,
                    n,
                )),
            final(self).slices().len() == old(self).slices().len() + (if has_slice(
                old(self).slices(),
                uuid,
            ) {
                0int
            } else {
                1int
            }),
    {
        let n: usize = self.architectures.len();
        let mut p: usize = 0;
        while p < n && self.architectures[p].uuid < uuid
            invariant
                p <= n,
                n == self.architectures.len(),
                self.architectures@ == old(self).architectures@,
                forall|i: int| 0 <= i < p ==> self.architectures@[i].uuid < uuid,
            decreases n - p,
        {
            p += 1;
        }
        let ghost before = self.architectures@;
        let ghost entry = Architecture { uuid, name };
        if p < n && self.architectures[p].uuid == uuid {
            self.architectures.set(p, Architecture { uuid, name });
            proof {
                let after = self.architectures@;
                assert(after[p as int].uuid == uuid && after[p as int].name@ == entry.name@);
                assert forall|u: u128, m: Seq<char>| u != uuid implies (#[trigger] labels(
                    after,
                    u,
                    m,
                ) <==> labels(before, u, m)) by {
                    if labels(after, u, m) {
                        let i = choose|i: int|
                            0 <= i < after.len() && #[trigger] after[i].uuid == u
                                && after[i].name@ == m;
                        assert(before[i].uuid == u && before[i].name@ == m);
                    }
                    if labels(before, u, m) {
                        let i = choose|i: int|
                            0 <= i < before.len() && #[trigger] before[i].uuid == u
                                && before[i].name@ == m;
                        assert(after[i].uuid == u && after[i].name@ == m);
                    }
                }
            }
        } else {
            self.architectures.insert(p, Architecture { uuid, name });
            proof {
                let after = self.architectures@;
                assert(after[p as int].uuid == uuid && after[p as int].name@ == entry.name@);
                assert(forall|i: int| p <= i < before.len() ==> before[i].uuid > uuid);
                assert(!has_slice(before, uuid));
                assert forall|i: int, j: int| 0 <= i < j < after.len() implies after[i].uuid
                    < after[j].uuid by {
                    if j > p {
                        assert(after[j] == before[j - 1]);
                    }
                    if i > p {
                        assert(after[i] == before[i - 1]);
                    }
                }
                assert forall|u: u128, m: Seq<char>| u != uuid implies (#[trigger] labels(
                    after,
                    u,
                    m,
                ) <==> labels(before, u, m)) by {
                    if labels(after, u, m) {
                        let i = choose|i: int|
                            0 <= i < after.len() && #[trigger] after[i].uuid == u
                                && after[i].name@ == m;
                        if i < p {
                            assert(before[i].uuid == u && before[i].name@ == m);
                        } else {
                            assert(after[i] == before[i - 1]);
                            assert(before[i - 1].uuid == u && before[i - 1].name@ == m);
                        }
                    }
                    if labels(before, u, m) {
                        let i = choose|i: int|
                            0 <= i < before.len() && #[trigger] before[i].uuid == u
                                && before[i].name@ == m;
                        if i < p {
                            assert(after[i].uuid == u && after[i].name@ == m);
                        } else {
                            assert(after[i + 1].uuid == u && after[i + 1].name@ == m);
                        }
                    }
                }
            }
        }
    }

    /// The summary of a file with the given slices, in whatever order they
    /// come; of two with one build identifier the later counts. A file
    /// without a slice has no summary.
    pub fn from_slices(slices: Vec<Architecture>, has_debug_info: bool) -> (r: Option<MachoInfo>)
        ensures
            r is None <==> slices@.len() == 0,
            r matches Some(mi) ==> mi.wf() && mi.spec_has_debug_info() == has_debug_info
                && forall|u: u128, n: Seq<char>| #[trigger]
                labels(mi.slices(), u, n) <==> last_label(slices@, u, n),
    {
        let total: usize = slices.len();
        if total == 0 {
            return None;
        }
        let mut mi = MachoInfo::new(slices[0].uuid, slices[0].name.clone(), has_debug_info);
        let mut i: usize = 1;
        proof {
            let head = slices@.take(1);
            assert(head[0] == slices@[0]);
            assert forall|u: u128, n: Seq<char>| #[trigger]
                labels(mi.slices(), u, n) <==> last_label(head, u, n) by {
                if labels(mi.slices(), u, n) {
                    assert(head[0].uuid == u && head[0].name@ == n);
                }
                if last_label(head, u, n) {
                    assert(mi.slices()[0].uuid == u && mi.slices()[0].name@ == n);
                }
            }
        }
        while i < total
            invariant
                1 <= i <= total,
                total == slices@.len(),
                mi.wf(),
                mi.spec_has_debug_info() == has_debug_info,
                forall|u: u128, n: Seq<char>| #[trigger]
                    labels(mi.slices(), u, n) <==> last_label(slices@.take(i as int), u, n),
            decreases total - i,
        {
            let ghost before = mi.slices();
            let ghost seen = slices@.take(i as int);
            let ghost more = slices@.take(i + 1);
            let uuid: u128 = slices[i].uuid;
            let name: String = slices[i].name.clone();
            mi.add_architecture(uuid, name);
            proof {
                let after = mi.slices();
                assert(more[i as int] == slices@[i as int]);
                assert(forall|k: int| 0 <= k < i ==> more[k] == seen[k]);
                assert forall|u: u128, n: Seq<char>| #[trigger]
                    labels(after, u, n) <==> last_label(more, u, n) by {
                    if u == uuid {
                        if labels(after, u, n) {
                            let a = choose|a: int|
                                0 <= a < after.len() && #[trigger] after[a].uuid == uuid
                                    && after[a].name@ == name@;
                            let b = choose|b: int|
                                0 <= b < after.len() && #[trigger] after[b].uuid == u
                                    && after[b].name@ == n;
                            assert(a == b);
                            assert(more[i as int].uuid == u && more[i as int].name@ == n);
                        }
                        if last_label(more, u, n) {
                            let k = choose|k: int|
                                0 <= k < more.len() && #[trigger] more[k].uuid == u
                                    && more[k].name@ == n && forall|j: int|
                                    k < j < more.len() ==> more[j].uuid != u;
                            assert(k == i);
                        }
                    } else {
                        if labels(after, u, n) {
                            assert(labels(before, u, n));
                            assert(last_label(seen, u, n));
                            let k = choose|k: int|
                                0 <= k < seen.len() && #[trigger] seen[k].uuid == u
                                    && seen[k].name@ == n && forall|j: int|
                                    k < j < seen.len() ==> seen[j].uuid != u;
                            assert(more[k].uuid == u && more[k].name@ == n);
                            assert(forall|j: int| k < j < more.len() ==> more[j].uuid != u);
                        }
                        if last_label(more, u, n) {
                            let k = choose|k: int|
                                0 <= k < more.len() && #[trigger] more[k].uuid == u
                                    && more[k].name@ == n && forall|j: int|
                                    k < j < more.len() ==> more[j].uuid != u;
                            assert(k < i);
                            assert(seen[k].uuid == u && seen[k].name@ == n);
                            assert(forall|j: int| k < j < seen.len() ==> seen[j] == more[j]);
                            assert(last_label(seen, u, n));
                            assert(labels(before, u, n));
                        }
                    }
                }
            }
            i += 1;
        }
        assert(slices@.take(total as int) =~= slices@);
        Some(mi)
    }

    /// The slices, in rising order of their build identifiers.
    pub fn architectures(&self) -> (r: &Vec<Architecture>)
        ensures
            r@ == self.slices(),
    {
        &self.architectures
    }

    pub fn has_debug_info(&self) -> (r: bool)
        ensures
            r == self.spec_has_debug_info(),
    {
        self.has_debug_info
    }
}

} // verus!
