//! Deciding whether the source can be decoded on a graphics card.
//!
//! Decoding happens twice for every file: once while converting it and once
//! more while measuring the result against it. Moving that off the processor
//! frees it for the encode and for the measurement.
//!
//! Two questions have to be answered, and neither one alone is enough.
//! `ffmpeg -hwaccels` lists what the build was compiled with, not what the
//! machine can do. Creating the device answers whether the driver is there.
//! Only decoding two real frames answers whether this codec can be decoded,
//! because hardware without an AV1 decoder refuses AV1 while handling H.265
//! perfectly. The checks themselves run ffmpeg, so the caller performs them
//! and this module decides what their answers mean.
use vstd::prelude::*;
use crate::options::{DecoderPreference, HwAccel};
use crate::text::{contains, contains_str, copy_str, join2, join3, lines, split_lines, str_eq, trim, trimmed};

verus! {

/// The operating system family the tool runs on, which decides which
/// decoding methods are worth trying automatically.
#[derive(Debug, Clone, Copy, PartialEq, Eq, Structural)]
pub enum Platform {
    Windows,
    MacOs,
    Android,
    Other,
}

pub open spec fn candidate_order(platform: Platform) -> Seq<HwAccel> {
    match platform {
        Platform::Windows => seq![HwAccel::D3d11va, HwAccel::Dxva2, HwAccel::Cuda, HwAccel::Qsv],
        Platform::MacOs => seq![HwAccel::VideoToolbox],
        Platform::Android => seq![HwAccel::MediaCodec],
        Platform::Other => seq![HwAccel::Vaapi, HwAccel::Cuda],
    }
}

/// An automatic choice never tries Vulkan or D3D12 decoding, on any
/// platform; Windows tries d3d11va, then dxva2, then cuda, then qsv; macOS
/// only VideoToolbox; Android only MediaCodec; other systems vaapi, then
/// cuda.
pub proof fn automatic_decoding_order(platform: Platform)
    ensures
        !candidate_order(platform).contains(HwAccel::Vulkan),
        !candidate_order(platform).contains(HwAccel::D3d12va),
        platform == Platform::Windows ==> candidate_order(platform) =~= seq![
            HwAccel::D3d11va,
            HwAccel::Dxva2,
            HwAccel::Cuda,
            HwAccel::Qsv,
        ],
        platform == Platform::MacOs ==> candidate_order(platform) =~= seq![HwAccel::VideoToolbox],
        platform == Platform::Android ==> candidate_order(platform) =~= seq![HwAccel::MediaCodec],
        platform == Platform::Other ==> candidate_order(platform) =~= seq![HwAccel::Vaapi, HwAccel::Cuda],
{
    let o = candidate_order(platform);
    if o.contains(HwAccel::Vulkan) {
        let j = choose|j: int| 0 <= j < o.len() && o[j] == HwAccel::Vulkan;
        assert(o[j] != HwAccel::Vulkan);
    }
    if o.contains(HwAccel::D3d12va) {
        let j = choose|j: int| 0 <= j < o.len() && o[j] == HwAccel::D3d12va;
        assert(o[j] != HwAccel::D3d12va);
    }
}

/// The decoding methods worth trying on one platform, in the order to try
/// them. Vulkan and D3D12 decoding are immature, so they are reachable only by
/// naming one of them: an automatic choice must be dull. On Windows, d3d11va
/// needs nothing beyond the display driver, dxva2 is its older sibling, and
/// cuda and qsv need a vendor runtime that may be absent.
pub fn candidates(platform: Platform) -> (r: Vec<HwAccel>)
    ensures
        r@ == candidate_order(platform),
{
    let r = match platform {
        Platform::Windows => vec![HwAccel::D3d11va, HwAccel::Dxva2, HwAccel::Cuda, HwAccel::Qsv],
        Platform::MacOs => vec![HwAccel::VideoToolbox],
        Platform::Android => vec![HwAccel::MediaCodec],
        Platform::Other => vec![HwAccel::Vaapi, HwAccel::Cuda],
    };
    assert(r@ =~= candidate_order(platform));
    r
}

/// Whether one line of `ffmpeg -hwaccels` output names exactly `name`: the
/// listing puts one method per line, after a header line ending in a colon.
pub open spec fn advertises(listing: Seq<char>, name: Seq<char>) -> bool {
    exists|i: int|
        0 <= i < lines(listing).len() && {
            let t = trim(#[trigger] lines(listing)[i]);
            t.len() > 0 && !contains(t, ":"@) && t == name
        }
}

/// The candidates of `order` that the listing advertises, in candidate order.
pub open spec fn supported_in(order: Seq<HwAccel>, listing: Seq<char>) -> Seq<HwAccel> {
    order.filter(|m: HwAccel| advertises(listing, m.wire_name()))
}

/// Whether one trimmed line is a method line naming `name`.
spec fn names_method(line: Seq<char>, name: Seq<char>) -> bool {
    let t = trim(line);
    t.len() > 0 && !contains(t, ":"@) && t == name
}

spec fn name_listed(names: Seq<String>, n: Seq<char>) -> bool {
    exists|j: int| 0 <= j < names.len() && (#[trigger] names[j])@ == n
}

spec fn advertised_before(listing: Seq<char>, n: Seq<char>, i: int) -> bool {
    exists|k: int| 0 <= k < i && names_method(#[trigger] lines(listing)[k], n)
}

/// Reads which of this platform's methods an ffmpeg build advertises in its
/// `-hwaccels` listing; returns them in the platform's preference order.
pub fn supported_methods(listing: &str, platform: Platform) -> (r: Vec<HwAccel>)
    ensures
        r@ == supported_in(candidate_order(platform), listing@),
{
    let all_lines = split_lines(listing);
    let mut names: Vec<String> = Vec::new();
    let mut i: usize = 0;
    while i < all_lines.len()
        invariant
            all_lines@.len() == lines(listing@).len(),
            forall|k: int| 0 <= k < all_lines@.len() ==> (#[trigger] all_lines@[k])@ == lines(listing@)[k],
            i <= all_lines.len(),
            forall|n: Seq<char>| #[trigger] name_listed(names@, n) <==> advertised_before(listing@, n, i as int),
        decreases all_lines.len() - i,
    {
        let t = trimmed(all_lines[i].as_str());
        let keep = t.as_str().unicode_len() > 0 && !contains_str(t.as_str(), ":");
        let ghost old_names = names@;
        let ghost tv = t@;
        if keep {
            names.push(t);
        }
        proof {
            assert(names_method(lines(listing@)[i as int], tv) == keep);
            assert forall|n: Seq<char>| #[trigger] name_listed(names@, n) <==> advertised_before(listing@, n, i + 1) by {
                if name_listed(names@, n) {
                    let j = choose|j: int| 0 <= j < names@.len() && (#[trigger] names@[j])@ == n;
                    if j < old_names.len() {
                        assert(old_names[j] == names@[j]);
                        assert(name_listed(old_names, n));
                    } else {
                        assert(names_method(lines(listing@)[i as int], n));
                    }
                }
                if advertised_before(listing@, n, i + 1) {
                    let k = choose|k: int| 0 <= k < i + 1 && names_method(#[trigger] lines(listing@)[k], n);
                    if k < i {
                        assert(advertised_before(listing@, n, i as int));
                        assert(name_listed(old_names, n));
                        let j = choose|j: int| 0 <= j < old_names.len() && (#[trigger] old_names[j])@ == n;
                        assert(names@[j] == old_names[j]);
                    } else {
                        assert(names@[old_names.len() as int]@ == n);
                    }
                }
            }
        }
        i = i + 1;
    }
    proof {
        assert forall|n: Seq<char>| #[trigger] name_listed(names@, n) <==> advertises(listing@, n) by {
            if advertises(listing@, n) {
                let k = choose|k: int| 0 <= k < lines(listing@).len() && {
                    let t = trim(#[trigger] lines(listing@)[k]);
                    t.len() > 0 && !contains(t, ":"@) && t == n
                };
                assert(names_method(lines(listing@)[k], n));
            }
            if advertised_before(listing@, n, i as int) {
                let k = choose|k: int| 0 <= k < i && names_method(#[trigger] lines(listing@)[k], n);
                assert(0 <= k < lines(listing@).len());
            }
        }
    }
    let order = candidates(platform);
    let mut r: Vec<HwAccel> = Vec::new();
    let mut c: usize = 0;
    while c < order.len()
        invariant
            order@ == candidate_order(platform),
            c <= order.len(),
            forall|n: Seq<char>| #[trigger] name_listed(names@, n) <==> advertises(listing@, n),
            r@ == supported_in(order@.subrange(0, c as int), listing@),
        decreases order.len() - c,
    {
        let m = order[c];
        let mut found = false;
        let mut j: usize = 0;
        while j < names.len()
            invariant
                j <= names.len(),
                found <==> exists|q: int| 0 <= q < j && (#[trigger] names@[q])@ == m.wire_name(),
            decreases names.len() - j,
        {
            if str_eq(names[j].as_str(), m.as_str()) {
                found = true;
            }
            j = j + 1;
        }
        proof {
            let prefix = order@.subrange(0, c as int);
            let next = order@.subrange(0, c + 1);
            assert(next.drop_last() =~= prefix);
            assert(next.last() == m);
            reveal(Seq::filter);
            assert(found == name_listed(names@, m.wire_name()));
            assert(found == advertises(listing@, m.wire_name()));
        }
        if found {
            r.push(m);
        }
        c = c + 1;
    }
    assert(order@.subrange(0, order@.len() as int) =~= order@);
    r
}

/// What a run decided about hardware decoding, and what it has learned since.
///
/// One failure is enough evidence: a method that crashed or was refused once is
/// not tried again for the rest of the run, which is what keeps a bad driver
/// from costing one wasted encode per file.
#[derive(Debug)]
pub struct Decoding {
    method: Option<HwAccel>,
    /// Which source codecs the method has been proven on, and which it refused.
    checked: Vec<(String, bool)>,
    /// Set once the method has failed during real work.
    disabled: bool,
    /// Whether the comparison itself can run on the card as well as the
    /// decoding.
    scoring: bool,
}

impl Decoding {
    /// No codec is recorded twice.
    #[verifier::type_invariant]
    closed spec fn unique_codecs(self) -> bool {
        forall|i: int, j: int|
            0 <= i < j < self.checked@.len() ==> (#[trigger] self.checked@[i]).0@
                != (#[trigger] self.checked@[j]).0@
    }

    /// The method the run settled on, before any failure.
    pub closed spec fn chosen(self) -> Option<HwAccel> {
        self.method
    }

    /// Whether the method has failed during real work.
    pub closed spec fn is_disabled(self) -> bool {
        self.disabled
    }

    /// Whether this build was found able to score on the card.
    pub closed spec fn scoring_enabled(self) -> bool {
        self.scoring
    }

    /// What has been learned per source codec: usable or refused.
    pub closed spec fn known(self) -> Map<Seq<char>, bool> {
        Map::new(
            |k: Seq<char>| exists|i: int| 0 <= i < self.checked@.len() && (#[trigger] self.checked@[i]).0@ == k,
            |k: Seq<char>|
                self.checked@[choose|i: int| 0 <= i < self.checked@.len() && (#[trigger] self.checked@[i]).0@ == k].1,
        )
    }

    /// The method decoding uses now: none once disabled.
    pub open spec fn current(self) -> Option<HwAccel> {
        if self.is_disabled() {
            None
        } else {
            self.chosen()
        }
    }

    /// A decision that keeps decoding on the processor.
    pub fn on_processor() -> (r: Self)
        ensures
            r.chosen() is None,
            !r.is_disabled(),
            !r.scoring_enabled(),
            r.known() == Map::<Seq<char>, bool>::empty(),
    {
        let r = Decoding { method: None, checked: Vec::new(), disabled: false, scoring: false };
        assert(r.known() =~= Map::<Seq<char>, bool>::empty());
        r
    }

    /// A decision to decode with `method`, with nothing learned yet.
    pub fn with_method(method: HwAccel) -> (r: Self)
        ensures
            r.chosen() == Some(method),
            !r.is_disabled(),
            !r.scoring_enabled(),
            r.known() == Map::<Seq<char>, bool>::empty(),
    {
        let r = Decoding {
            method: Some(method),
            checked: Vec::new(),
            disabled: false,
            scoring: false,
        };
        assert(r.known() =~= Map::<Seq<char>, bool>::empty());
        r
    }

    /// Reports which method the run settled on; none when decoding stays on
    /// the processor or the method has failed.
    pub fn method(&self) -> (r: Option<HwAccel>)
        ensures
            r == self.current(),
    {
        if self.disabled {
            None
        } else {
            self.method
        }
    }

    fn lookup(&self, codec: &str) -> (r: Option<bool>)
        ensures
            match r {
                Some(u) => self.known().dom().contains(codec@) && self.known()[codec@] == u,
                None => !self.known().dom().contains(codec@),
            },
    {
        proof {
            use_type_invariant(self);
        }
        let mut i: usize = 0;
        while i < self.checked.len()
            invariant
                self.unique_codecs(),
                i <= self.checked@.len(),
                forall|j: int| 0 <= j < i ==> (#[trigger] self.checked@[j]).0@ != codec@,
            decreases self.checked.len() - i,
        {
            if str_eq(self.checked[i].0.as_str(), codec) {
                proof {
                    assert(self.known().dom().contains(codec@));
                    let c = choose|q: int|
                        0 <= q < self.checked@.len() && (#[trigger] self.checked@[q]).0@ == codec@;
                    if c != i {
                        if c < i {
                            assert(self.checked@[c].0@ != self.checked@[i as int].0@);
                        } else {
                            assert(self.checked@[i as int].0@ != self.checked@[c].0@);
                        }
                    }
                }
                return Some(self.checked[i].1);
            }
            i = i + 1;
        }
        None
    }

    /// Records what a decode check found for one source codec. A codec already
    /// recorded keeps its first answer.
    pub fn remember(&mut self, codec: &str, usable: bool)
        ensures
            final(self).chosen() == old(self).chosen(),
            final(self).is_disabled() == old(self).is_disabled(),
            final(self).scoring_enabled() == old(self).scoring_enabled(),
            old(self).known().dom().contains(codec@) ==> final(self).known() == old(self).known(),
            !old(self).known().dom().contains(codec@) ==> final(self).known() == old(
                self,
            ).known().insert(codec@, usable),
    {
        proof {
            use_type_invariant(&*self);
        }
        if self.lookup(codec).is_some() {
            return;
        }
        let ghost before = self.checked@;
        let ghost old_known = self.known();
        let entry = (copy_str(codec), usable);
        let mut checked = Vec::new();
        std::mem::swap(&mut checked, &mut self.checked);
        checked.push(entry);
        proof {
            assert(checked@ == before.push(entry));
            assert forall|i: int, j: int|
                0 <= i < j < checked@.len() implies (#[trigger] checked@[i]).0@
                != (#[trigger] checked@[j]).0@ by {
                if j == before.len() {
                    assert(checked@[i] == before[i]);
                    assert(old_known.dom().contains(before[i].0@));
                }
            }
        }
        self.checked = checked;
        proof {
            let now = self.known();
            let want = old_known.insert(codec@, usable);
            assert forall|k: Seq<char>| now.dom().contains(k) <==> want.dom().contains(k) by {
                if now.dom().contains(k) && k != codec@ {
                    let i = choose|i: int| 0 <= i < self.checked@.len() && (#[trigger] self.checked@[i]).0@ == k;
                    assert(self.checked@[i] == before[i]);
                }
                if old_known.dom().contains(k) {
                    let i = choose|i: int| 0 <= i < before.len() && (#[trigger] before[i]).0@ == k;
                    assert(self.checked@[i] == before[i]);
                }
                if k == codec@ {
                    assert(self.checked@[before.len() as int].0@ == k);
                }
            }
            assert forall|k: Seq<char>| now.dom().contains(k) implies now[k] == want[k] by {
                let c = choose|i: int| 0 <= i < self.checked@.len() && (#[trigger] self.checked@[i]).0@ == k;
                if k == codec@ {
                    if c != before.len() {
                        assert(self.checked@[c] == before[c]);
                        assert(old_known.dom().contains(codec@));
                    }
                } else {
                    assert(c != before.len());
                    assert(self.checked@[c] == before[c]);
                    let d = choose|i: int| 0 <= i < before.len() && (#[trigger] before[i]).0@ == k;
                    if c != d {
                        assert(self.checked@[d] == before[d]);
                        if c < d {
                            assert(self.checked@[c].0@ != self.checked@[d].0@);
                        } else {
                            assert(self.checked@[d].0@ != self.checked@[c].0@);
                        }
                    }
                }
            }
            assert(now =~= want);
        }
    }

    /// Decides whether one file, whose source codec is `codec`, can be
    /// decoded on the graphics card. The answer is remembered per codec, so a
    /// folder of one codec pays for one `check` (which decodes two frames of
    /// the file with the method and reports whether that worked).
    pub fn method_for<F: FnOnce(HwAccel) -> bool>(&mut self, codec: &str, check: F) -> (r: Option<
        HwAccel,
    >)
        requires
            forall|m: HwAccel| check.requires((m,)),
        ensures
            final(self).chosen() == old(self).chosen(),
            final(self).is_disabled() == old(self).is_disabled(),
            final(self).scoring_enabled() == old(self).scoring_enabled(),
            old(self).current() is None ==> r is None && final(self).known() == old(self).known(),
            old(self).current() is Some && old(self).known().dom().contains(codec@) ==> {
                &&& final(self).known() == old(self).known()
                &&& r == (if old(self).known()[codec@] {
                    old(self).current()
                } else {
                    None
                })
            },
            old(self).current() is Some && !old(self).known().dom().contains(codec@) ==> exists|
                usable: bool,
            |
                {
                    &&& check.ensures((old(self).current().unwrap(),), usable)
                    &&& final(self).known() == old(self).known().insert(codec@, usable)
                    &&& r == (if usable {
                        old(self).current()
                    } else {
                        None
                    })
                },
    {
        let method = match self.method() {
            Some(m) => m,
            None => return None,
        };
        match self.lookup(codec) {
            Some(usable) => {
                return if usable {
                    Some(method)
                } else {
                    None
                };
            },
            None => {},
        }
        let usable = check(method);
        self.remember(codec, usable);
        if usable {
            Some(method)
        } else {
            None
        }
    }

    /// Stops using the graphics card for the rest of the run.
    pub fn disable(&mut self)
        ensures
            final(self).is_disabled(),
            final(self).chosen() == old(self).chosen(),
            final(self).scoring_enabled() == old(self).scoring_enabled(),
            final(self).known() == old(self).known(),
    {
        proof {
            use_type_invariant(&*self);
        }
        self.disabled = true;
    }

    /// Records that this build can also score on the card.
    pub fn enable_gpu_scoring(&mut self)
        ensures
            final(self).scoring_enabled(),
            final(self).is_disabled() == old(self).is_disabled(),
            final(self).chosen() == old(self).chosen(),
            final(self).known() == old(self).known(),
    {
        proof {
            use_type_invariant(&*self);
        }
        self.scoring = true;
    }

    /// Whether the comparison itself should run on the card: only when this
    /// build can score there and the run is still decoding with CUDA.
    pub fn scores_on_gpu(&self) -> (r: bool)
        ensures
            r == (self.scoring_enabled() && self.current() == Some(HwAccel::Cuda)),
    {
        self.scoring && self.method() == Some(HwAccel::Cuda)
    }

    /// Chooses the decoding method for a run from what the user asked for.
    /// `supported` holds the methods this build advertises, in preference
    /// order, and `check_device` reports whether a method's device can be
    /// created here. Returns the decision, plus a sentence to report when the
    /// request could not be met; an automatic choice reports nothing when it
    /// falls back, because falling back is what it is for.
    pub fn select<F: Fn(HwAccel) -> Result<(), String>>(
        supported: Vec<HwAccel>,
        preference: DecoderPreference,
        check_device: F,
    ) -> (r: (Self, Option<String>))
        requires
            forall|m: HwAccel| check_device.requires((m,)),
        ensures
            !r.0.is_disabled(),
            !r.0.scoring_enabled(),
            r.0.known() == Map::<Seq<char>, bool>::empty(),
            preference == DecoderPreference::Cpu ==> r.0.chosen() is None && r.1 is None,
            preference matches DecoderPreference::Method(m) ==> {
                ||| (r.0.chosen() == Some(m) && r.1 is None && check_device.ensures(
                    (m,),
                    Ok::<(), String>(()),
                ))
                ||| (r.0.chosen() is None && exists|reason: String|
                    check_device.ensures((m,), Err::<(), String>(reason)) && (r.1 matches Some(
                        msg,
                    ) && msg@ == m.wire_name()
                        + " cannot be used on this computer, so decoding stays on the processor: "@
                        + reason@))
            },
            (preference == DecoderPreference::Auto || preference == DecoderPreference::Gpu) ==> {
                match r.0.chosen() {
                    Some(m) => r.1 is None && check_device.ensures((m,), Ok::<(), String>(()))
                        && exists|i: int|
                        0 <= i < supported@.len() && supported@[i] == m && forall|j: int|
                            0 <= j < i ==> exists|reason: String|
                                check_device.ensures(
                                    (#[trigger] supported@[j],),
                                    Err::<(), String>(reason),
                                ),
                    None => {
                        &&& forall|j: int|
                            0 <= j < supported@.len() ==> exists|reason: String|
                                check_device.ensures(
                                    (#[trigger] supported@[j],),
                                    Err::<(), String>(reason),
                                )
                        &&& preference == DecoderPreference::Auto ==> r.1 is None
                        &&& preference == DecoderPreference::Gpu && supported@.len() == 0 ==> (
                        r.1 matches Some(msg) && msg@
                            == "this FFmpeg build offers no hardware decoding, so decoding stays on the processor"@)
                        &&& preference == DecoderPreference::Gpu && supported@.len() > 0 ==> (
                        exists|reason: String|
                            check_device.ensures(
                                (supported@.last(),),
                                Err::<(), String>(reason),
                            ) && (r.1 matches Some(msg) && msg@
                                == "no graphics card here can decode video, so decoding stays on the processor: "@
                                + reason@))
                    },
                }
            },
    {
        match preference {
            DecoderPreference::Cpu => (Self::on_processor(), None),
            DecoderPreference::Method(method) => match check_device(method) {
                Ok(u) => {
                    assert(u == ());
                    (Self::with_method(method), None)
                },
                Err(reason) => {
                    let ghost why = reason;
                    assert(check_device.ensures((method,), Err::<(), String>(why)));
                    let msg = join3(
                        method.as_str(),
                        " cannot be used on this computer, so decoding stays on the processor: ",
                        reason.as_str(),
                    );
                    (Self::on_processor(), Some(msg))
                },
            },
            DecoderPreference::Auto | DecoderPreference::Gpu => {
                let mut last_reason: Option<String> = None;
                let mut i: usize = 0;
                while i < supported.len()
                    invariant
                        preference == DecoderPreference::Auto || preference == DecoderPreference::Gpu,
                        i <= supported@.len(),
                        forall|m: HwAccel| check_device.requires((m,)),
                        forall|j: int|
                            0 <= j < i ==> exists|reason: String|
                                check_device.ensures(
                                    (#[trigger] supported@[j],),
                                    Err::<(), String>(reason),
                                ),
                        i == 0 <==> last_reason is None,
                        i > 0 ==> (last_reason matches Some(reason) && check_device.ensures(
                            (supported@[i - 1],),
                            Err::<(), String>(reason),
                        )),
                    decreases supported.len() - i,
                {
                    let method = supported[i];
                    let answer = check_device(method);
                    match answer {
                        Ok(u) => {
                            assert(u == ());
                            assert(answer == Ok::<(), String>(()));
                            assert(supported@[i as int] == method);
                            return (Self::with_method(method), None);
                        },
                        Err(reason) => {
                            last_reason = Some(reason);
                        },
                    }
                    i = i + 1;
                }
                let complaint = match preference {
                    DecoderPreference::Gpu => match last_reason {
                        Some(reason) => Some(
                            join2(
                                "no graphics card here can decode video, so decoding stays on the processor: ",
                                reason.as_str(),
                            ),
                        ),
                        None => Some(
                            copy_str(
                                "this FFmpeg build offers no hardware decoding, so decoding stays on the processor",
                            ),
                        ),
                    },
                    _ => None,
                };
                (Self::on_processor(), complaint)
            },
        }
    }
}

/// Once a run has disabled the graphics card, no decision it makes uses it.
pub proof fn disabled_stays_on_processor(d: Decoding)
    requires
        d.is_disabled(),
    ensures
        d.current() is None,
{
}

} // verus!
