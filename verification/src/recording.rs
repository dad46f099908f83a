//! The recording catalog: a verified catalog implementation that records
//! every marshaled call and registry operation, answers sends from a
//! scripted reply queue, and assigns selector tokens and class references
//! deterministically by hashing the name. It stands in for the foreign
//! trampoline set wherever the dispatch layer is exercised without a live
//! runtime.

use vstd::prelude::*;
use vstd::string::StrSliceExecFns;

use crate::base::{IMP, MsgCall, MsgReply, ObjCRuntime, RegOp, SEL, id};

verus! {

/// One recorded registry operation, as the recording catalog stores it.
#[derive(Clone, PartialEq, Debug)]
pub enum RegEntry {
    AllocPair { superclass: id, name: String, extra_bytes: usize },
    AddMethod { cls: id, sel: SEL, imp: IMP, types: String },
    RegisterPair { cls: id },
}

impl RegEntry {
    /// The abstract registry operation this entry records.
    pub open spec fn abs(self) -> RegOp {
        match self {
            RegEntry::AllocPair { superclass, name, extra_bytes } => RegOp::AllocPair {
                superclass,
                name: name@,
                extra_bytes: extra_bytes as nat,
            },
            RegEntry::AddMethod { cls, sel, imp, types } => RegOp::AddMethod {
                cls,
                sel,
                imp,
                types: types@,
            },
            RegEntry::RegisterPair { cls } => RegOp::RegisterPair { cls },
        }
    }
}

/// The abstract view of a recorded registry, entry by entry.
pub open spec fn abs_reg(entries: Seq<RegEntry>) -> Seq<RegOp> {
    entries.map_values(|e: RegEntry| e.abs())
}

proof fn lemma_abs_reg_push(entries: Seq<RegEntry>, e: RegEntry)
    ensures
        abs_reg(entries.push(e)) =~= abs_reg(entries).push(e.abs()),
{
}

/// The word the recording catalog derives from a name: a rolling hash over
/// the name's characters, kept below 2^32 so that tagged handles built from
/// it stay in range.
pub open spec fn spec_hash(s: Seq<char>) -> int
    decreases s.len(),
{
    if s.len() == 0 {
        5381
    } else {
        (spec_hash(s.drop_last()) * 31 + (s.last() as u32)) % 0x100000000
    }
}

pub proof fn lemma_spec_hash_bounds(s: Seq<char>)
    ensures
        0 <= spec_hash(s) < 0x100000000,
    decreases s.len(),
{
    if s.len() == 0 {
    } else {
        lemma_spec_hash_bounds(s.drop_last());
    }
}

/// Computes the rolling hash of a name's characters.
fn hash_name(s: &str) -> (h: u64)
    ensures
        h as int == spec_hash(s@),
{
    let n: usize = s.unicode_len();
    let mut h: u64 = 5381;
    let mut i: usize = 0;
    while i < n
        invariant
            i <= n,
            n == s@.len(),
            h as int == spec_hash(s@.subrange(0, i as int)),
            h < 0x100000000u64,
        decreases n - i,
    {
        let c: char = s.get_char(i);
        let cv: u32 = c as u32;
        proof {
            let pre = s@.subrange(0, i as int);
            let post = s@.subrange(0, i as int + 1);
            assert(post.drop_last() =~= pre);
            assert(post.last() == s@[i as int]);
        }
        h = (h * 31 + (cv as u64)) % 0x100000000u64;
        i = i + 1;
    }
    proof {
        assert(s@.subrange(0, n as int) =~= s@);
    }
    h
}

/// A verified trampoline catalog: every marshaled call lands in `log`,
/// every registry operation in `reg`, and sends are answered from the
/// scripted `replies` queue, next reply first.
pub struct RecordingRuntime {
    /// Every marshaled call performed, oldest first.
    pub log: Vec<MsgCall>,
    /// The scripted replies not yet consumed, next first.
    pub replies: Vec<MsgReply>,
    /// Every registry operation performed, oldest first.
    pub reg: Vec<RegEntry>,
}

impl RecordingRuntime {
    /// An empty catalog: nothing recorded, nothing scripted.
    pub fn new() -> (r: RecordingRuntime)
        ensures
            r.calls() == Seq::<MsgCall>::empty(),
            r.pending() == Seq::<MsgReply>::empty(),
            r.registry() == Seq::<RegOp>::empty(),
    {
        let r = RecordingRuntime { log: Vec::new(), replies: Vec::new(), reg: Vec::new() };
        proof {
            assert(r.registry() =~= Seq::<RegOp>::empty());
        }
        r
    }

    /// Scripts one more reply at the back of the queue.
    pub fn push_reply(&mut self, reply: MsgReply)
        ensures
            final(self).pending() == old(self).pending().push(reply),
            final(self).calls() == old(self).calls(),
            final(self).registry() == old(self).registry(),
    {
        self.replies.push(reply);
    }
}

impl ObjCRuntime for RecordingRuntime {
    open spec fn calls(&self) -> Seq<MsgCall> {
        self.log@
    }

    open spec fn pending(&self) -> Seq<MsgReply> {
        self.replies@
    }

    open spec fn registry(&self) -> Seq<RegOp> {
        abs_reg(self.reg@)
    }

    /// The token for a name is the name's hash.
    open spec fn sel_token(&self, name: Seq<char>) -> SEL {
        SEL(spec_hash(name) as u64)
    }

    /// The class reference for a name is the name's hash tagged into a
    /// separate, never-nil range.
    open spec fn class_ref(&self, name: Seq<char>) -> id {
        id((spec_hash(name) + 0x100000000) as u64)
    }

    fn intern_selector(&self, name: &str) -> (r: SEL) {
        let h = hash_name(name);
        proof {
            lemma_spec_hash_bounds(name@);
        }
        SEL(h)
    }

    fn lookup_class(&self, name: &str) -> (r: id) {
        let h = hash_name(name);
        proof {
            lemma_spec_hash_bounds(name@);
        }
        id(h + 0x100000000)
    }

    fn invoke(&mut self, call: MsgCall) -> (r: MsgReply) {
        self.log.push(call);
        if self.replies.len() > 0 {
            let r = self.replies.remove(0);
            proof {
                assert(self.replies@ =~= old(self).replies@.drop_first());
            }
            r
        } else {
            MsgReply::Void
        }
    }

    fn alloc_class_pair(&mut self, superclass: id, name: &str, extra_bytes: usize) -> (r: id) {
        let stored = name.to_owned();
        let entry = RegEntry::AllocPair { superclass, name: stored, extra_bytes };
        proof {
            lemma_abs_reg_push(self.reg@, entry);
        }
        self.reg.push(entry);
        let h = hash_name(name);
        proof {
            lemma_spec_hash_bounds(name@);
        }
        id(h + 0x100000000)
    }

    /// The recording catalog accepts every method registration.
    fn add_method(&mut self, cls: id, sel: SEL, imp: IMP, types: &str) -> (r: bool)
        ensures
            r == true,
    {
        let stored = types.to_owned();
        let entry = RegEntry::AddMethod { cls, sel, imp, types: stored };
        proof {
            lemma_abs_reg_push(self.reg@, entry);
        }
        self.reg.push(entry);
        true
    }

    fn register_class_pair(&mut self, cls: id) {
        let entry = RegEntry::RegisterPair { cls };
        proof {
            lemma_abs_reg_push(self.reg@, entry);
        }
        self.reg.push(entry);
    }
}

} // verus!
