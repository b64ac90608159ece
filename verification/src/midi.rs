//! MIDI control-change bookkeeping.
//!
//! A connected MIDI device reports control-change messages; the callback
//! parses them and stores the latest value per controller number, and the
//! UI polls once per frame for the values that changed, mapped onto the
//! parameters the user assigned. Opening and closing the device connection
//! is outside work; everything decided on the message bytes and the stored
//! values is verified here.

use vstd::prelude::*;

verus! {

/// A parameter that can be controlled via MIDI CC.
#[derive(Debug, Clone, Copy, PartialEq, Eq, Hash, Structural)]
pub enum MidiParam {
    Gain,
    Volume,
    Speed,
    LineWidth,
    Intensity,
    Persistence,
    Zoom,
    DcOffsetX,
    DcOffsetY,
}

/// Every parameter, in display order.
pub open spec fn all_params_spec() -> Seq<MidiParam> {
    seq![
        MidiParam::Gain,
        MidiParam::Volume,
        MidiParam::Speed,
        MidiParam::LineWidth,
        MidiParam::Intensity,
        MidiParam::Persistence,
        MidiParam::Zoom,
        MidiParam::DcOffsetX,
        MidiParam::DcOffsetY,
    ]
}

impl MidiParam {
    /// The parameter's display name.
    pub fn name(&self) -> (r: &'static str)
        ensures
            self is Gain ==> r@ == "Gain"@,
            self is Volume ==> r@ == "Volume"@,
            self is Speed ==> r@ == "Speed"@,
            self is LineWidth ==> r@ == "Line Width"@,
            self is Intensity ==> r@ == "Intensity"@,
            self is Persistence ==> r@ == "Persistence"@,
            self is Zoom ==> r@ == "Zoom"@,
            self is DcOffsetX ==> r@ == "DC Offset X"@,
            self is DcOffsetY ==> r@ == "DC Offset Y"@,
    {
        match self {
            MidiParam::Gain => "Gain",
            MidiParam::Volume => "Volume",
            MidiParam::Speed => "Speed",
            MidiParam::LineWidth => "Line Width",
            MidiParam::Intensity => "Intensity",
            MidiParam::Persistence => "Persistence",
            MidiParam::Zoom => "Zoom",
            MidiParam::DcOffsetX => "DC Offset X",
            MidiParam::DcOffsetY => "DC Offset Y",
        }
    }

    /// Every parameter, in display order.
    pub fn all() -> (r: Vec<MidiParam>)
        ensures
            r@ == all_params_spec(),
    {
        let mut r: Vec<MidiParam> = Vec::new();
        r.push(MidiParam::Gain);
        r.push(MidiParam::Volume);
        r.push(MidiParam::Speed);
        r.push(MidiParam::LineWidth);
        r.push(MidiParam::Intensity);
        r.push(MidiParam::Persistence);
        r.push(MidiParam::Zoom);
        r.push(MidiParam::DcOffsetX);
        r.push(MidiParam::DcOffsetY);
        proof {
            assert(r@ =~= all_params_spec());
        }
        r
    }
}

/// A single CC-to-parameter mapping.
#[derive(Debug, Clone, Copy, PartialEq, Eq, Structural)]
pub struct MidiMapping {
    /// The controller number, always below 128.
    pub cc: u8,
    /// The parameter it drives.
    pub param: MidiParam,
}

/// The mathematical state of the stored CC values: one value and one
/// changed flag per controller number.
#[verifier::ext_equal]
pub ghost struct CcModel {
    pub values: Seq<u8>,
    pub changed: Seq<bool>,
}

/// The last received value per CC number, with a changed flag per number
/// that the poll consumes.
pub struct SharedCcValues {
    values: Vec<u8>,
    changed: Vec<bool>,
}

impl View for SharedCcValues {
    type V = CcModel;

    closed spec fn view(&self) -> CcModel {
        CcModel { values: self.values@, changed: self.changed@ }
    }
}

/// The number of MIDI controller numbers.
pub open spec fn cc_count() -> int {
    128
}

impl SharedCcValues {
    /// One slot per controller number, all unset.
    pub open spec fn wf(&self) -> bool {
        self@.values.len() == cc_count() && self@.changed.len() == cc_count()
    }

    /// All values zero, nothing marked changed.
    pub fn new() -> (s: Self)
        ensures
            s.wf(),
            s@.values =~= Seq::<u8>::new(cc_count() as nat, |i: int| 0u8),
            s@.changed =~= Seq::<bool>::new(cc_count() as nat, |i: int| false),
    {
        let mut values: Vec<u8> = Vec::new();
        let mut changed: Vec<bool> = Vec::new();
        let mut i: usize = 0;
        while i < 128
            invariant
                i <= 128,
                values@.len() == i,
                changed@.len() == i,
                forall|j: int| 0 <= j < i ==> values@[j] == 0u8 && changed@[j] == false,
            decreases 128 - i,
        {
            values.push(0u8);
            changed.push(false);
            i = i + 1;
        }
        let s = SharedCcValues { values, changed };
        proof {
            assert(s@.values =~= Seq::<u8>::new(cc_count() as nat, |i: int| 0u8));
            assert(s@.changed =~= Seq::<bool>::new(cc_count() as nat, |i: int| false));
        }
        s
    }

    /// Store a received CC value and mark it changed. Called for every
    /// control-change message the connection delivers.
    pub fn set(&mut self, cc: u8, value: u8)
        requires
            old(self).wf(),
            cc < 128,
        ensures
            final(self).wf(),
            final(self)@.values == old(self)@.values.update(cc as int, value),
            final(self)@.changed == old(self)@.changed.update(cc as int, true),
    {
        self.values.set(cc as usize, value);
        self.changed.set(cc as usize, true);
    }

    /// Read a CC value and clear its changed flag. Returns the value
    /// exactly when it changed since the last poll.
    pub fn poll(&mut self, cc: u8) -> (r: Option<u8>)
        requires
            old(self).wf(),
            cc < 128,
        ensures
            final(self).wf(),
            final(self)@.values == old(self)@.values,
            final(self)@.changed == old(self)@.changed.update(cc as int, false),
            r == if old(self)@.changed[cc as int] {
                Some(old(self)@.values[cc as int])
            } else {
                None::<u8>
            },
    {
        let was_changed = self.changed[cc as usize];
        self.changed.set(cc as usize, false);
        proof {
            if !old(self)@.changed[cc as int] {
                assert(self.changed@ =~= old(self)@.changed.update(cc as int, false));
            }
        }
        if was_changed {
            Some(self.values[cc as usize])
        } else {
            None
        }
    }
}

/// Parse one raw MIDI message as a control-change: exactly the three-byte
/// messages whose status nibble is the control-change marker, yielding the
/// controller number and value with their seven data bits.
pub fn parse_cc_message(msg: &Vec<u8>) -> (r: Option<(u8, u8)>)
    ensures
        r == if msg@.len() == 3 && msg@[0] & 0xF0u8 == 0xB0u8 {
            Some((msg@[1] & 0x7Fu8, msg@[2] & 0x7Fu8))
        } else {
            None::<(u8, u8)>
        },
        r is Some ==> (r->0).0 < 128 && (r->0).1 < 128,
{
    if msg.len() == 3 && (msg[0] & 0xF0) == 0xB0 {
        let cc = msg[1] & 0x7F;
        let value = msg[2] & 0x7F;
        proof {
            let b1 = msg@[1];
            let b2 = msg@[2];
            assert(b1 & 0x7Fu8 < 128 && b2 & 0x7Fu8 < 128) by (bit_vector);
        }
        Some((cc, value))
    } else {
        None
    }
}

/// The lowest controller number at or after `i` whose changed flag is set.
pub open spec fn first_changed_from(ch: Seq<bool>, i: int) -> Option<int>
    decreases ch.len() - i,
{
    if i < 0 || i >= ch.len() {
        None
    } else if ch[i] {
        Some(i)
    } else {
        first_changed_from(ch, i + 1)
    }
}

proof fn lemma_first_changed_some(ch: Seq<bool>, i: int, c: int)
    requires
        0 <= i <= c < ch.len(),
        ch[c],
        forall|j: int| i <= j < c ==> !ch[j],
    ensures
        first_changed_from(ch, i) == Some(c),
    decreases c - i,
{
    if i < c {
        lemma_first_changed_some(ch, i + 1, c);
    }
}

proof fn lemma_first_changed_none(ch: Seq<bool>, i: int)
    requires
        0 <= i,
        forall|j: int| i <= j < ch.len() ==> !ch[j],
    ensures
        first_changed_from(ch, i) == None::<int>,
    decreases ch.len() - i,
{
    if i < ch.len() {
        lemma_first_changed_none(ch, i + 1);
    }
}

/// Polling every mapping in order: a mapping whose controller changed
/// contributes its parameter with the stored value and consumes the
/// changed flag, so a later mapping of the same controller sees nothing.
pub open spec fn poll_updates_spec(maps: Seq<MidiMapping>, cc: CcModel) -> (
    Seq<(MidiParam, u8)>,
    CcModel,
)
    decreases maps.len(),
{
    if maps.len() == 0 {
        (Seq::<(MidiParam, u8)>::empty(), cc)
    } else {
        let m = maps[0];
        if cc.changed[m.cc as int] {
            let cc2 = CcModel { changed: cc.changed.update(m.cc as int, false), ..cc };
            let rest = poll_updates_spec(maps.subrange(1, maps.len() as int), cc2);
            (seq![(m.param, cc.values[m.cc as int])] + rest.0, rest.1)
        } else {
            poll_updates_spec(maps.subrange(1, maps.len() as int), cc)
        }
    }
}

/// Whether some mapping drives the parameter.
pub open spec fn mapped_spec(maps: Seq<MidiMapping>, p: MidiParam) -> bool {
    exists|j: int| 0 <= j < maps.len() && maps[j].param == p
}

/// The mathematical state of the MIDI controller.
#[verifier::ext_equal]
pub ghost struct CtrlModel {
    /// The user's CC-to-parameter mappings, in order.
    pub mappings: Seq<MidiMapping>,
    /// The mapping index being learned, when learn mode is active.
    pub learning: Option<int>,
    /// The stored CC values and changed flags.
    pub cc: CcModel,
    /// Whether a device connection is active.
    pub connected: bool,
}

/// MIDI input controller: the mappings, the learn mode, and the per-frame
/// poll. Port scanning and the device connection are outside work; the
/// caller reports connection changes and received messages.
pub struct MidiController {
    /// Available MIDI port names, as the last scan reported them.
    pub ports: Vec<String>,
    /// Currently selected port index.
    pub selected_port: usize,
    cc_values: SharedCcValues,
    /// User-defined CC-to-parameter mappings.
    pub mappings: Vec<MidiMapping>,
    /// Status message for display.
    pub status: String,
    /// Whether currently connected.
    pub is_connected: bool,
    /// The mapping index being learned, when learn mode is active.
    pub learning: Option<usize>,
}

impl View for MidiController {
    type V = CtrlModel;

    closed spec fn view(&self) -> CtrlModel {
        CtrlModel {
            mappings: self.mappings@,
            learning: match self.learning {
                Some(i) => Some(i as int),
                None => None,
            },
            cc: self.cc_values@,
            connected: self.is_connected,
        }
    }
}

impl MidiController {
    /// Shape constraints that every reachable controller satisfies: one
    /// CC slot per controller number, and every mapping within range.
    pub closed spec fn wf(&self) -> bool {
        &&& self.cc_values.wf()
        &&& forall|j: int| 0 <= j < self.mappings@.len() ==> self.mappings@[j].cc < 128
    }

    /// A fresh controller: no mappings, no learn mode, nothing received,
    /// disconnected. Scanning for ports is the caller's work.
    pub fn new() -> (c: Self)
        ensures
            c.wf(),
            c@.mappings == Seq::<MidiMapping>::empty(),
            c@.learning is None,
            c@.connected == false,
            forall|j: int| 0 <= j < cc_count() ==> !c@.cc.changed[j],
    {
        MidiController {
            ports: Vec::new(),
            selected_port: 0,
            cc_values: SharedCcValues::new(),
            mappings: Vec::new(),
            status: "Disconnected".to_owned(),
            is_connected: false,
            learning: None,
        }
    }

    /// Record one received control-change, as the connection callback
    /// reports it.
    pub fn feed_cc(&mut self, cc: u8, value: u8)
        requires
            old(self).wf(),
            cc < 128,
        ensures
            final(self).wf(),
            final(self)@ == (CtrlModel {
                cc: CcModel {
                    values: old(self)@.cc.values.update(cc as int, value),
                    changed: old(self)@.cc.changed.update(cc as int, true),
                },
                ..old(self)@
            }),
    {
        self.cc_values.set(cc, value);
    }

    /// Poll for changed CC values, once per frame.
    ///
    /// In learn mode the lowest changed controller number is assigned to
    /// the mapping being learned, its flag is consumed, learn mode ends
    /// and no updates are returned. Otherwise every mapping is polled in
    /// order: each whose controller changed since the last poll yields
    /// its parameter with the mapped raw value, consuming the flag.
    pub fn poll(&mut self) -> (r: Vec<(MidiParam, u8)>)
        requires
            old(self).wf(),
        ensures
            final(self).wf(),
            final(self)@.connected == old(self)@.connected,
            final(self)@.cc.values == old(self)@.cc.values,
            old(self)@.learning matches Some(idx) ==> r@.len() == 0 && (match first_changed_from(
                old(self)@.cc.changed,
                0,
            ) {
                Some(c) => final(self)@.learning is None
                    && final(self)@.cc.changed == old(self)@.cc.changed.update(c, false)
                    && final(self)@.mappings == (if idx < old(self)@.mappings.len() {
                    old(self)@.mappings.update(
                        idx,
                        MidiMapping { cc: c as u8, param: old(self)@.mappings[idx].param },
                    )
                } else {
                    old(self)@.mappings
                }),
                None => final(self)@ == old(self)@,
            }),
            old(self)@.learning is None ==> final(self)@.learning is None && final(self)@.mappings == old(self)@.mappings
                && r@ == poll_updates_spec(
                old(self)@.mappings,
                old(self)@.cc,
            ).0 && final(self)@.cc == poll_updates_spec(old(self)@.mappings, old(self)@.cc).1,
    {
        let learning = self.learning;
        match learning {
            Some(idx) => {
                let mut cc: u8 = 0;
                while cc < 128
                    invariant
                        old(self).wf(),
                        self.wf(),
                        cc <= 128,
                        old(self).learning == Some(idx),
                        self.learning == old(self).learning,
                        self@.mappings == old(self)@.mappings,
                        self@.connected == old(self)@.connected,
                        self@.cc.values == old(self)@.cc.values,
                        self@.cc.changed =~= old(self)@.cc.changed,
                        forall|j: int| 0 <= j < cc ==> !old(self)@.cc.changed[j],
                    decreases 128 - cc,
                {
                    match self.cc_values.poll(cc) {
                        Some(_value) => {
                            proof {
                                lemma_first_changed_some(old(self)@.cc.changed, 0, cc as int);
                            }
                            if idx < self.mappings.len() {
                                let param = self.mappings[idx].param;
                                self.mappings.set(idx, MidiMapping { cc, param });
                            }
                            self.learning = None;
                            return Vec::new();
                        },
                        None => {
                            proof {
                                assert(self.cc_values@.changed =~= old(self)@.cc.changed);
                            }
                        },
                    }
                    cc = cc + 1;
                }
                proof {
                    lemma_first_changed_none(old(self)@.cc.changed, 0);
                }
                Vec::new()
            },
            None => {
                let mut r: Vec<(MidiParam, u8)> = Vec::new();
                let n = self.mappings.len();
                let ghost full = poll_updates_spec(old(self)@.mappings, old(self)@.cc);
                let mut k: usize = 0;
                proof {
                    assert(old(self)@.mappings.subrange(0, n as int) =~= old(self)@.mappings);
                }
                while k < n
                    invariant
                        old(self).wf(),
                        self.wf(),
                        k <= n,
                        n == old(self)@.mappings.len(),
                        full == poll_updates_spec(old(self)@.mappings, old(self)@.cc),
                        self.learning == old(self).learning,
                        self.learning is None,
                        self@.mappings == old(self)@.mappings,
                        self@.connected == old(self)@.connected,
                        self@.cc.values == old(self)@.cc.values,
                        full.0 == r@ + poll_updates_spec(
                            old(self)@.mappings.subrange(k as int, n as int),
                            self@.cc,
                        ).0,
                        full.1 == poll_updates_spec(
                            old(self)@.mappings.subrange(k as int, n as int),
                            self@.cc,
                        ).1,
                    decreases n - k,
                {
                    let ghost pre_cc = self@.cc;
                    let ghost rem = old(self)@.mappings.subrange(k as int, n as int);
                    proof {
                        assert(rem[0] == old(self)@.mappings[k as int]);
                        assert(rem.subrange(1, rem.len() as int) =~= old(self)@.mappings.subrange(
                            k as int + 1,
                            n as int,
                        ));
                    }
                    let m = self.mappings[k];
                    match self.cc_values.poll(m.cc) {
                        Some(value) => {
                            r.push((m.param, value));
                            proof {
                                let cc2 = CcModel {
                                    changed: pre_cc.changed.update(m.cc as int, false),
                                    ..pre_cc
                                };
                                assert(self@.cc =~= cc2);
                                assert(r@ =~= (r@.subrange(0, r@.len() - 1)).push(
                                    (m.param, pre_cc.values[m.cc as int]),
                                ));
                                assert(r@.subrange(0, r@.len() - 1) + (seq![
                                    (m.param, pre_cc.values[m.cc as int]),
                                ] + poll_updates_spec(rem.subrange(1, rem.len() as int), cc2).0)
                                    =~= r@ + poll_updates_spec(
                                    rem.subrange(1, rem.len() as int),
                                    cc2,
                                ).0);
                            }
                        },
                        None => {
                            proof {
                                assert(self@.cc.changed =~= pre_cc.changed);
                                assert(self@.cc =~= pre_cc);
                            }
                        },
                    }
                    k = k + 1;
                }
                proof {
                    assert(old(self)@.mappings.subrange(n as int, n as int) =~= Seq::<
                        MidiMapping,
                    >::empty());
                    assert(r@ + Seq::<(MidiParam, u8)>::empty() =~= r@);
                }
                r
            },
        }
    }

    /// Add a new mapping at the end of the list.
    pub fn add_mapping(&mut self, cc: u8, param: MidiParam)
        requires
            old(self).wf(),
            cc < 128,
        ensures
            final(self).wf(),
            final(self)@ == (CtrlModel {
                mappings: old(self)@.mappings.push(MidiMapping { cc, param }),
                ..old(self)@
            }),
    {
        self.mappings.push(MidiMapping { cc, param });
    }

    /// Remove a mapping by index; out-of-range indices do nothing. When
    /// the removed mapping was the one being learned, learn mode ends.
    pub fn remove_mapping(&mut self, index: usize)
        requires
            old(self).wf(),
        ensures
            final(self).wf(),
            index < old(self)@.mappings.len() ==> final(self)@ == (CtrlModel {
                mappings: old(self)@.mappings.remove(index as int),
                learning: if old(self)@.learning == Some(index as int) {
                    None
                } else {
                    old(self)@.learning
                },
                ..old(self)@
            }),
            index >= old(self)@.mappings.len() ==> final(self)@ == old(self)@,
    {
        if index < self.mappings.len() {
            self.mappings.remove(index);
            let clear = match self.learning {
                Some(i) => i == index,
                None => false,
            };
            if clear {
                self.learning = None;
            }
        }
    }

    /// Start learn mode for a mapping; out-of-range indices do nothing.
    pub fn start_learn(&mut self, mapping_index: usize)
        requires
            old(self).wf(),
        ensures
            final(self).wf(),
            mapping_index < old(self)@.mappings.len() ==> final(self)@ == (CtrlModel {
                learning: Some(mapping_index as int),
                ..old(self)@
            }),
            mapping_index >= old(self)@.mappings.len() ==> final(self)@ == old(self)@,
    {
        if mapping_index < self.mappings.len() {
            self.learning = Some(mapping_index);
        }
    }

    /// Leave learn mode.
    pub fn cancel_learn(&mut self)
        requires
            old(self).wf(),
        ensures
            final(self).wf(),
            final(self)@ == (CtrlModel { learning: None, ..old(self)@ }),
    {
        self.learning = None;
    }

    /// Whether some mapping drives the parameter.
    fn is_mapped(&self, p: MidiParam) -> (b: bool)
        ensures
            b == mapped_spec(self@.mappings, p),
    {
        let n = self.mappings.len();
        let mut j: usize = 0;
        while j < n
            invariant
                n == self@.mappings.len(),
                j <= n,
                forall|t: int| 0 <= t < j ==> self@.mappings[t].param != p,
            decreases n - j,
        {
            if self.mappings[j].param == p {
                return true;
            }
            j = j + 1;
        }
        false
    }

    /// The parameters not yet driven by any mapping, in display order.
    pub fn unmapped_params(&self) -> (r: Vec<MidiParam>)
        ensures
            r@ == all_params_spec().filter(
                |p: MidiParam| !mapped_spec(self@.mappings, p),
            ),
    {
        let all = MidiParam::all();
        let mut r: Vec<MidiParam> = Vec::new();
        let n = all.len();
        let mut i: usize = 0;
        proof {
            reveal(Seq::filter);
        }
        while i < n
            invariant
                n == all@.len(),
                all@ == all_params_spec(),
                i <= n,
                r@ == all@.take(i as int).filter(
                    |p: MidiParam| !mapped_spec(self@.mappings, p),
                ),
            decreases n - i,
        {
            proof {
                reveal(Seq::filter);
                let pred = |p: MidiParam| !mapped_spec(self@.mappings, p);
                let pre = all@.take(i as int + 1);
                assert(pre.drop_last() =~= all@.take(i as int));
                assert(pre.last() == all@[i as int]);
            }
            if !self.is_mapped(all[i]) {
                r.push(all[i]);
            }
            i = i + 1;
        }
        proof {
            assert(all@.take(n as int) =~= all@);
        }
        r
    }
}

} // verus!
