//! Inbound tick aggregation: one immutable snapshot of every speaker per
//! 20 ms tick.
//!
//! The network/decode layer records per-speaker evidence of activity — a raw
//! packet, decoded audio, or both — while the tick is open; at the tick
//! boundary the driving loop freezes the recorded mapping into a
//! [`VoiceTick`], in which every known speaker who produced nothing this tick
//! is listed as silent. That is how consumers tell "quiet" from "never
//! existed".

use vstd::prelude::*;
use std::collections::HashMap;
use std::collections::HashSet;

verus! {

broadcast use vstd::std_specs::hash::group_hash_axioms;

/// A raw transport-layer audio packet for one speaker and one tick. The core
/// never inspects its bytes, only their presence or absence.
#[derive(Clone, Debug, PartialEq, Eq)]
pub struct RtpData {
    /// The packet's bytes, as handed over by the transport collaborator.
    pub payload: Vec<u8>,
}

/// Voice packet and audio for a single speaker, from a single tick.
#[derive(Clone, Debug, PartialEq, Eq)]
pub struct VoiceData {
    /// The packet clocked out for this tick. `None` means the packet was
    /// lost in transit — which does not imply silence.
    pub packet: Option<RtpData>,
    /// Decoded 16-bit stereo interleaved PCM for this tick, up to 20 ms
    /// worth. `None` when decoding is disabled by configuration, whether or
    /// not a packet arrived. Present alongside a lost packet, it is audio the
    /// decoder reconstructed to cover the gap.
    pub decoded_voice: Option<Vec<i16>>,
}

/// Audio from all speakers in a channel, frozen once per 20 ms tick.
#[derive(Debug, PartialEq, Eq)]
pub struct VoiceTick {
    /// Voice data for each speaker who produced evidence of activity this
    /// tick, keyed by speaker identifier.
    pub speaking: HashMap<u32, VoiceData>,
    /// Every speaker known to the channel who is absent from `speaking` this
    /// tick.
    pub silent: HashSet<u32>,
}

impl VoiceTick {
    /// No speaker is both speaking and silent.
    pub open spec fn disjoint(&self) -> bool {
        self.speaking@.dom().disjoint(self.silent@)
    }
}

/// Builds the per-tick snapshot: the mapping from speaker to pending
/// [`VoiceData`] for the tick under construction, and the set of all speaker
/// identifiers currently known to the channel.
pub struct TickAggregator {
    speaking: HashMap<u32, VoiceData>,
    known: Vec<u32>,
}

impl TickAggregator {
    /// The evidence recorded so far for the tick under construction.
    pub closed spec fn spec_speaking(&self) -> Map<u32, VoiceData> {
        self.speaking@
    }

    /// Every speaker identifier currently known to the channel.
    pub closed spec fn spec_known(&self) -> Set<u32> {
        self.known@.to_set()
    }

    /// Each known identifier is tracked once.
    pub closed spec fn wf(&self) -> bool {
        forall|i: int, j: int|
            0 <= i < j < self.known@.len() ==> self.known@[i] != self.known@[j]
    }

    /// A fresh aggregator: no tick under construction, no known speakers.
    pub fn new() -> (r: Self)
        ensures
            r.spec_speaking() == Map::<u32, VoiceData>::empty(),
            r.spec_known() == Set::<u32>::empty(),
            r.wf(),
    {
        let r = TickAggregator { speaking: HashMap::new(), known: Vec::new() };
        proof {
            assert(r.spec_known() =~= Set::<u32>::empty());
        }
        r
    }

    /// Whether `ssrc` is currently a known speaker.
    fn known_contains(&self, ssrc: u32) -> (r: bool)
        ensures
            r == self.spec_known().contains(ssrc),
    {
        let mut i: usize = 0;
        while i < self.known.len()
            invariant
                i <= self.known@.len(),
                forall|j: int| 0 <= j < i ==> self.known@[j] != ssrc,
            decreases self.known@.len() - i,
        {
            if self.known[i] == ssrc {
                return true;
            }
            i += 1;
        }
        false
    }

    /// Marks `ssrc` as known to the channel, with no effect if it already is.
    fn mark_known(&mut self, ssrc: u32)
        requires
            old(self).wf(),
        ensures
            final(self).wf(),
            final(self).spec_speaking() == old(self).spec_speaking(),
            final(self).spec_known() == old(self).spec_known().insert(ssrc),
    {
        if !self.known_contains(ssrc) {
            let ghost prior = self.known@;
            self.known.push(ssrc);
            proof {
                prior.lemma_push_to_set_commute(ssrc);
                assert(self.spec_known() =~= old(self).spec_known().insert(ssrc));
            }
        } else {
            proof {
                assert(self.spec_known() =~= old(self).spec_known().insert(ssrc));
            }
        }
    }

    /// Notes that `ssrc` was observed on the channel (through any network
    /// signal, not necessarily a voice record). Until removed, a speaker with
    /// no activity appears as silent every tick.
    pub fn add_speaker(&mut self, ssrc: u32)
        requires
            old(self).wf(),
        ensures
            final(self).wf(),
            final(self).spec_speaking() == old(self).spec_speaking(),
            final(self).spec_known() == old(self).spec_known().insert(ssrc),
    {
        self.mark_known(ssrc);
    }

    /// Records one speaker's evidence of activity for the tick under
    /// construction: a raw packet, decoded audio, or both.
    ///
    /// A call with neither — no evidence of activity — is a caller error: it
    /// is rejected, returns `false`, and stores nothing. Otherwise the record
    /// overwrites any earlier record for that speaker this tick
    /// (last-write-wins), marks the speaker known, and returns `true`.
    pub fn record(&mut self, ssrc: u32, packet: Option<RtpData>, decoded_voice: Option<Vec<i16>>) -> (r:
        bool)
        requires
            old(self).wf(),
        ensures
            final(self).wf(),
            r == !(packet is None && decoded_voice is None),
            packet is None && decoded_voice is None ==> *final(self) == *old(self),
            r ==> final(self).spec_speaking() == old(self).spec_speaking().insert(
                ssrc,
                (VoiceData { packet, decoded_voice }),
            ) && final(self).spec_known() == old(self).spec_known().insert(ssrc),
    {
        if packet.is_none() && decoded_voice.is_none() {
            return false;
        }
        self.mark_known(ssrc);
        self.speaking.insert(ssrc, VoiceData { packet, decoded_voice });
        true
    }

    /// Forgets a speaker who has definitively left the channel: from now on
    /// the identifier appears in neither `speaking` nor `silent`.
    pub fn remove_speaker(&mut self, ssrc: u32)
        requires
            old(self).wf(),
        ensures
            final(self).wf(),
            final(self).spec_speaking() == old(self).spec_speaking().remove(ssrc),
            final(self).spec_known() == old(self).spec_known().remove(ssrc),
    {
        let mut i: usize = 0;
        while i < self.known.len()
            invariant
                i <= self.known@.len(),
                old(self).wf(),
                self.known@ == old(self).known@,
                self.speaking@ == old(self).speaking@,
                forall|j: int| 0 <= j < i ==> self.known@[j] != ssrc,
            decreases self.known@.len() - i,
        {
            if self.known[i] == ssrc {
                let ghost prior = self.known@;
                self.known.remove(i);
                proof {
                    lemma_remove_unique_element(prior, ssrc, i as int);
                    assert(self.spec_known() =~= old(self).spec_known().remove(ssrc));
                }
                self.speaking.remove(&ssrc);
                return ;
            }
            i += 1;
        }
        proof {
            assert(!old(self).spec_known().contains(ssrc));
            assert(self.spec_known() =~= old(self).spec_known().remove(ssrc));
        }
        self.speaking.remove(&ssrc);
    }

    /// Closes the tick: freezes the recorded evidence into an immutable
    /// [`VoiceTick`], computes the silent set as every known speaker not
    /// recorded this tick, and resets the per-tick state for the next cycle.
    /// The set of known speakers carries over unchanged.
    ///
    /// This is the sole point at which a [`VoiceTick`] comes into existence,
    /// and an atomic cut line: every record made before it belongs to the
    /// returned tick, and none of them to the next one.
    pub fn finish_tick(&mut self) -> (t: VoiceTick)
        requires
            old(self).wf(),
        ensures
            final(self).wf(),
            t.speaking@ == old(self).spec_speaking(),
            forall|s: u32|
                t.silent@.contains(s) <==> (old(self).spec_known().contains(s) && !old(
                    self,
                ).spec_speaking().dom().contains(s)),
            t.disjoint(),
            final(self).spec_speaking() == Map::<u32, VoiceData>::empty(),
            final(self).spec_known() == old(self).spec_known(),
    {
        let mut silent: HashSet<u32> = HashSet::new();
        let mut i: usize = 0;
        while i < self.known.len()
            invariant
                i <= self.known@.len(),
                forall|s: u32| #[trigger]
                    silent@.contains(s) ==> self.known@.contains(s)
                        && !self.speaking@.dom().contains(s),
                forall|j: int|
                    0 <= j < i && !self.speaking@.dom().contains(#[trigger] self.known@[j])
                        ==> silent@.contains(self.known@[j]),
            decreases self.known@.len() - i,
        {
            let s = self.known[i];
            if !self.speaking.contains_key(&s) {
                silent.insert(s);
            }
            i += 1;
        }
        proof {
            assert forall|s: u32|
                self.known@.to_set().contains(s) && !self.speaking@.dom().contains(
                    s,
                ) implies silent@.contains(s) by {
                let j = choose|j: int| 0 <= j < self.known@.len() && self.known@[j] == s;
                assert(!self.speaking@.dom().contains(self.known@[j]));
            }
        }
        let mut speaking: HashMap<u32, VoiceData> = HashMap::new();
        core::mem::swap(&mut speaking, &mut self.speaking);
        VoiceTick { speaking, silent }
    }
}

/// Removing the only occurrence of `elt` from a duplicate-free sequence
/// removes exactly `elt` from the sequence's set of elements.
proof fn lemma_remove_unique_element(s: Seq<u32>, elt: u32, idx: int)
    requires
        0 <= idx < s.len(),
        s[idx] == elt,
        forall|i: int, j: int| 0 <= i < j < s.len() ==> s[i] != s[j],
    ensures
        s.remove(idx).to_set() =~= s.to_set().remove(elt),
        forall|i: int, j: int|
            0 <= i < j < s.remove(idx).len() ==> s.remove(idx)[i] != s.remove(idx)[j],
{
    let r = s.remove(idx);
    assert forall|x: u32| r.to_set().contains(x) implies s.to_set().remove(elt).contains(x) by {
        let j = choose|j: int| 0 <= j < r.len() && r[j] == x;
        if j < idx {
            assert(s[j] == x);
        } else {
            assert(s[j + 1] == x);
        }
    }
    assert forall|x: u32| s.to_set().remove(elt).contains(x) implies r.to_set().contains(x) by {
        let j = choose|j: int| 0 <= j < s.len() && s[j] == x;
        if j < idx {
            assert(r[j] == x);
        } else {
            assert(j != idx);
            assert(r[j - 1] == x);
        }
    }
}

} // verus!
