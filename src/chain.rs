use vstd::prelude::*;
use crate::sizing::SizeError;

verus! {

/// A digest of one part's hash list.
pub type Digest = [u8; 20];

/// One forward reference written during the chain pass: `digest` was
/// appended to the hash list of part `part_index`.
#[derive(Debug, Clone, Copy, PartialEq, Eq)]
pub struct Link {
    pub part_index: u64,
    pub digest: Digest,
}

/// What the caller does next in the chain pass.
#[derive(Debug, Clone, Copy, PartialEq, Eq)]
pub enum ChainStep {
    /// Load the hash list of part `part_index`, append `digest` to it, write
    /// it back into the part file, and report the digest of the updated list.
    Link { part_index: u64, digest: Digest },
    /// Every hash list is final; `root_digest` is the digest of part 0's.
    Finished { root_digest: Digest },
}

/// The backward pass that links the parts' hash lists into one chain.
///
/// The caller first reports the digest of the last part's hash list, which
/// is the chain's terminus and is never changed. Each later report is the
/// digest of the list that the previous step updated. The builder decides
/// which part is linked next and with which digest.
pub struct ChainBuilder {
    part_count: u64,
    /// `digests[k]` is the reported digest of part `part_count - 1 - k`.
    digests: Vec<Digest>,
    /// `links[k]` is the link written into part `part_count - 2 - k`.
    links: Vec<Link>,
}

impl ChainBuilder {
    pub closed spec fn spec_part_count(&self) -> nat {
        self.part_count as nat
    }

    /// The reported digests, the terminus first.
    pub closed spec fn reported(&self) -> Seq<Digest> {
        self.digests@
    }

    /// The links issued so far, in the order they were issued.
    pub closed spec fn issued(&self) -> Seq<Link> {
        self.links@
    }

    /// The finalized digest of part `i`, once it has been reported.
    pub open spec fn part_digest(&self, i: int) -> Digest {
        self.reported()[self.spec_part_count() - 1 - i]
    }

    /// Every part's digest has been reported.
    pub open spec fn is_finished(&self) -> bool {
        self.reported().len() == self.spec_part_count()
    }

    /// The chain so far: each link goes into the part before the one whose
    /// digest it carries, walking backward from the terminus.
    pub open spec fn wf(&self) -> bool {
        &&& self.spec_part_count() >= 1
        &&& self.reported().len() <= self.spec_part_count()
        &&& self.issued().len() == if self.is_finished() {
            self.reported().len() - 1
        } else {
            self.reported().len() as int
        }
        &&& forall|k: int|
            0 <= k < self.issued().len() ==> {
                &&& (#[trigger] self.issued()[k]).part_index == self.spec_part_count() - 2 - k
                &&& self.issued()[k].digest == self.reported()[k]
            }
    }

    /// A builder for `part_count` parts; a chain needs at least one part.
    pub fn new(part_count: u64) -> (r: Result<ChainBuilder, SizeError>)
        ensures
            part_count == 0 <==> r == Err::<ChainBuilder, SizeError>(SizeError::EmptyImage),
            r is Ok <==> part_count >= 1,
            r is Ok ==> {
                &&& r->Ok_0.wf()
                &&& r->Ok_0.spec_part_count() == part_count
                &&& r->Ok_0.reported().len() == 0
            },
    {
        if part_count == 0 {
            return Err(SizeError::EmptyImage);
        }
        ChainBuilder::new_unchecked(part_count)
    }

    fn new_unchecked(part_count: u64) -> (r: Result<ChainBuilder, SizeError>)
        requires
            part_count >= 1,
        ensures
            r is Ok,
            r->Ok_0.wf(),
            r->Ok_0.spec_part_count() == part_count,
            r->Ok_0.reported().len() == 0,
    {
        Ok(ChainBuilder { part_count, digests: Vec::new(), links: Vec::new() })
    }

    /// The part whose hash list is loaded first: the chain's terminus.
    pub fn terminus(&self) -> (r: u64)
        requires
            self.wf(),
        ensures
            r == self.spec_part_count() - 1,
    {
        self.part_count - 1
    }

    /// Number of parts in the chain.
    pub fn part_count(&self) -> (r: u64)
        ensures
            r == self.spec_part_count(),
    {
        self.part_count
    }

    /// The root digest of a finished pass: the digest of part 0's list.
    pub fn root_digest(&self) -> (r: Digest)
        requires
            self.wf(),
            self.is_finished(),
        ensures
            r == self.part_digest(0),
            r == self.reported().last(),
    {
        self.digests[self.digests.len() - 1]
    }

    /// Number of links issued so far.
    pub fn link_count(&self) -> (r: usize)
        ensures
            r == self.issued().len(),
    {
        self.links.len()
    }

    /// The `k`-th link issued.
    pub fn link_at(&self, k: usize) -> (r: Link)
        requires
            k < self.issued().len(),
        ensures
            r == self.issued()[k as int],
    {
        self.links[k]
    }

    /// Records the digest of the current head of the chain and says what to
    /// do next: link it into the part before, or finish with it as the root.
    pub fn report_digest(&mut self, digest: Digest) -> (r: ChainStep)
        requires
            old(self).wf(),
            !old(self).is_finished(),
        ensures
            final(self).wf(),
            final(self).spec_part_count() == old(self).spec_part_count(),
            final(self).reported() == old(self).reported().push(digest),
            final(self).is_finished() ==> {
                &&& r == (ChainStep::Finished { root_digest: digest })
                &&& final(self).issued() == old(self).issued()
            },
            !final(self).is_finished() ==> {
                let link = Link {
                    part_index: (old(self).spec_part_count() - 2 - old(self).reported().len()) as u64,
                    digest,
                };
                &&& r == (ChainStep::Link { part_index: link.part_index, digest })
                &&& final(self).issued() == old(self).issued().push(link)
            },
    {
        self.digests.push(digest);
        proof {
            assert forall|k: int| 0 <= k < old(self).issued().len() implies #[trigger] self.reported()[k]
                == old(self).reported()[k] by {}
        }
        let reported = self.digests.len() as u64;
        if reported == self.part_count {
            ChainStep::Finished { root_digest: digest }
        } else {
            let part_index = self.part_count - 1 - reported;
            self.links.push(Link { part_index, digest });
            ChainStep::Link { part_index, digest }
        }
    }
}

/// Once the pass is finished, the hash list of every part but the last
/// carries a link holding the finalized digest of the next part's list, no
/// link goes into the last part, and the root digest is part 0's.
pub proof fn lemma_chain_integrity(b: ChainBuilder)
    requires
        b.wf(),
        b.is_finished(),
    ensures
        b.issued().len() == b.spec_part_count() - 1,
        forall|i: int|
            0 <= i < b.spec_part_count() - 1 ==> {
                let link = #[trigger] b.issued()[b.spec_part_count() - 2 - i];
                &&& link.part_index == i
                &&& link.digest == b.part_digest(i + 1)
            },
        forall|k: int|
            0 <= k < b.issued().len() ==> (#[trigger] b.issued()[k]).part_index != b.spec_part_count()
                - 1,
        b.reported().last() == b.part_digest(0),
{
    assert forall|i: int| 0 <= i < b.spec_part_count() - 1 implies {
        let link = #[trigger] b.issued()[b.spec_part_count() - 2 - i];
        &&& link.part_index == i
        &&& link.digest == b.part_digest(i + 1)
    } by {
        let k = b.spec_part_count() - 2 - i;
        assert(b.issued()[k].part_index == b.spec_part_count() - 2 - k);
    }
}

/// The links a pass issues are determined by the part count and the digests
/// reported: two passes over the same parts that saw the same digests write
/// the same links into the same parts.
pub proof fn lemma_chain_deterministic(a: ChainBuilder, b: ChainBuilder)
    requires
        a.wf(),
        b.wf(),
        a.spec_part_count() == b.spec_part_count(),
        a.reported() == b.reported(),
    ensures
        a.issued() == b.issued(),
{
    assert forall|k: int| 0 <= k < a.issued().len() implies #[trigger] a.issued()[k]
        == b.issued()[k] by {
        assert(a.issued()[k].part_index == b.issued()[k].part_index);
        assert(a.issued()[k].digest == b.issued()[k].digest);
    }
    assert(a.issued() =~= b.issued());
}

/// Two finished passes over the same number of parts that saw different
/// digests for part `k` write different links into part `k - 1`, or, for
/// part 0, end with different root digests.
pub proof fn lemma_digest_change_propagates(a: ChainBuilder, b: ChainBuilder, k: int)
    requires
        a.wf(),
        b.wf(),
        a.is_finished(),
        b.is_finished(),
        a.spec_part_count() == b.spec_part_count(),
        0 <= k < a.spec_part_count(),
        a.part_digest(k) != b.part_digest(k),
    ensures
        k == 0 ==> a.reported().last() != b.reported().last(),
        k > 0 ==> a.issued()[a.spec_part_count() - 1 - k].digest != b.issued()[b.spec_part_count()
            - 1 - k].digest,
        k > 0 ==> a.issued()[a.spec_part_count() - 1 - k].part_index == k - 1,
{
    lemma_chain_integrity(a);
    lemma_chain_integrity(b);
    if k > 0 {
        let i = k - 1;
        assert(a.issued()[a.spec_part_count() - 2 - i].digest == a.part_digest(i + 1));
        assert(b.issued()[b.spec_part_count() - 2 - i].digest == b.part_digest(i + 1));
    }
}

} // verus!
