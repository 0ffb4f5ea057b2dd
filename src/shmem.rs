use vstd::prelude::*;

verus! {

/// Offset of the 6 air channels, one byte each.
pub const AIR_OFFSET: usize = 0;

/// Number of air channels.
pub const AIR_LEN: usize = 6;

/// Offset of the 32 slider channels, one byte each.
pub const SLIDER_OFFSET: usize = 6;

/// Number of slider channels.
pub const SLIDER_LEN: usize = 32;

/// Offset of the test flag.
pub const TEST_OFFSET: usize = 134;

/// Offset of the service flag.
pub const SERVICE_OFFSET: usize = 135;

/// Offset of the coin flag.
pub const COIN_OFFSET: usize = 136;

/// Offset of the card-present flag (0 or 1).
pub const CARD_PRESENT_OFFSET: usize = 138;

/// Offset of the raw card number.
pub const CARD_OFFSET: usize = 140;

/// Length of the raw card number.
pub const CARD_LEN: usize = 10;

/// Size of the segment this library creates.
pub const SEGMENT_SIZE: usize = 1024;

/// `m` with the bytes of `src` written from offset `off` on.
pub open spec fn overwrite(m: Seq<u8>, off: int, src: Seq<u8>) -> Seq<u8> {
    Seq::new(m.len(), |i: int| if off <= i < off + src.len() { src[i - off] } else { m[i] })
}

/// Whether a card payload stands for "no card": empty or all zero.
pub open spec fn is_blank_card(raw: Seq<u8>) -> bool {
    forall|i: int| 0 <= i < raw.len() ==> #[trigger] raw[i] == 0
}

/// The segment after writing the sensor channels.
pub open spec fn samples_written(m: Seq<u8>, air: Seq<u8>, slider: Seq<u8>) -> Seq<u8> {
    let m1 = if air.len() >= 6 && m.len() >= 6 {
        overwrite(m, AIR_OFFSET as int, air.subrange(0, 6))
    } else {
        m
    };
    if slider.len() >= 32 && m.len() >= 38 {
        overwrite(m1, SLIDER_OFFSET as int, slider.subrange(0, 32))
    } else {
        m1
    }
}

/// The segment after writing the three button flags.
pub open spec fn status_written(m: Seq<u8>, coin: u8, service: u8, test: u8) -> Seq<u8> {
    if m.len() >= 137 {
        m.update(TEST_OFFSET as int, test).update(SERVICE_OFFSET as int, service).update(
            COIN_OFFSET as int,
            coin,
        )
    } else {
        m
    }
}

/// The segment after writing a card payload: a blank one clears the card
/// region and the presence flag, another writes up to 10 bytes and sets it.
pub open spec fn card_written(m: Seq<u8>, raw: Seq<u8>) -> Seq<u8> {
    if m.len() < 150 {
        m
    } else if is_blank_card(raw) {
        overwrite(m, CARD_OFFSET as int, Seq::new(10, |i: int| 0u8)).update(
            CARD_PRESENT_OFFSET as int,
            0,
        )
    } else {
        let n = if raw.len() < 10 { raw.len() } else { 10 };
        overwrite(m, CARD_OFFSET as int, raw.subrange(0, n as int)).update(
            CARD_PRESENT_OFFSET as int,
            1,
        )
    }
}

/// What a reader of the segment finds after the writes: the 6 air and 32
/// slider bytes in order from offset 0; a card number at offsets 140 to 149
/// with the presence flag at 138 set; and, after a blank card, the flag and
/// the card region cleared.
pub proof fn lemma_layout_reads_back(m: Seq<u8>, air: Seq<u8>, slider: Seq<u8>, raw: Seq<u8>)
    requires
        m.len() >= 150,
        air.len() == 6,
        slider.len() == 32,
        raw.len() == 10,
    ensures
        samples_written(m, air, slider).subrange(0, 38) == air + slider,
        !is_blank_card(raw) ==> card_written(m, raw)[138] == 1 && card_written(m, raw).subrange(
            140,
            150,
        ) == raw,
        card_written(m, Seq::empty())[138] == 0,
        card_written(m, Seq::empty()).subrange(140, 150) == Seq::new(10, |i: int| 0u8),
{
    assert(air.subrange(0, 6) =~= air);
    assert(slider.subrange(0, 32) =~= slider);
    assert(samples_written(m, air, slider).subrange(0, 38) =~= air + slider);
    assert(raw.subrange(0, 10) =~= raw);
    assert(card_written(m, raw).subrange(140, 150) =~= raw);
    assert(card_written(m, Seq::empty()).subrange(140, 150) =~= Seq::new(10, |i: int| 0u8));
}

/// This process's image of the shared segment, and the single writer of its
/// fixed layout.
pub struct ShmemManager {
    mem: Vec<u8>,
}

impl View for ShmemManager {
    type V = Seq<u8>;

    closed spec fn view(&self) -> Seq<u8> {
        self.mem@
    }
}

impl ShmemManager {
    /// Takes the current bytes of the segment.
    pub fn new(image: Vec<u8>) -> (r: Self)
        ensures
            r@ == image@,
    {
        ShmemManager { mem: image }
    }

    /// The bytes of the segment as written so far.
    pub fn as_bytes(&self) -> (r: &[u8])
        ensures
            r@ == self@,
    {
        self.mem.as_slice()
    }

    /// Copies `src` into the image from offset `off` on.
    fn copy_in(&mut self, off: usize, src: &[u8], n: usize)
        requires
            n <= src@.len(),
            off + n <= old(self)@.len(),
        ensures
            final(self)@ == overwrite(old(self)@, off as int, src@.subrange(0, n as int)),
    {
        let ghost m0 = self@;
        let len = self.mem.len();
        let mut i: usize = 0;
        while i < n
            invariant
                i <= n,
                n <= src@.len(),
                off + n <= m0.len(),
                m0.len() == len,
                self@.len() == m0.len(),
                forall|k: int|
                    0 <= k < m0.len() ==> #[trigger] self@[k] == (if off <= k < off + i {
                        src@[k - off]
                    } else {
                        m0[k]
                    }),
            decreases n - i,
        {
            self.mem.set(off + i, src[i]);
            i += 1;
        }
        assert(self@ =~= overwrite(m0, off as int, src@.subrange(0, n as int)));
    }

    /// Writes the sensor channels, one byte each: 6 air channels from offset 0
    /// and 32 slider channels from offset 6. A part that is too short, or that
    /// the segment has no room for, is left out.
    pub fn write_data(&mut self, air: &[u8], slider: &[u8])
        ensures
            final(self)@ == samples_written(old(self)@, air@, slider@),
    {
        if air.len() >= AIR_LEN && self.mem.len() >= AIR_LEN {
            self.copy_in(AIR_OFFSET, air, AIR_LEN);
        }
        if slider.len() >= SLIDER_LEN && self.mem.len() >= SLIDER_OFFSET + SLIDER_LEN {
            self.copy_in(SLIDER_OFFSET, slider, SLIDER_LEN);
        }
    }

    /// Writes the test, service and coin flags at offsets 134, 135 and 136.
    pub fn write_status(&mut self, coin: u8, service: u8, test: u8)
        ensures
            final(self)@ == status_written(old(self)@, coin, service, test),
    {
        if self.mem.len() < 137 {
            return;
        }
        self.mem.set(TEST_OFFSET, test);
        self.mem.set(SERVICE_OFFSET, service);
        self.mem.set(COIN_OFFSET, coin);
    }

    /// Writes a raw card number at offset 140 and sets the presence flag at
    /// offset 138. An empty or all-zero card clears both instead.
    pub fn write_card_raw(&mut self, raw_bcd: &[u8])
        ensures
            final(self)@ == card_written(old(self)@, raw_bcd@),
    {
        if self.mem.len() < 150 {
            return;
        }
        let mut blank = true;
        let mut i: usize = 0;
        while i < raw_bcd.len()
            invariant
                i <= raw_bcd@.len(),
                blank == (forall|k: int| 0 <= k < i ==> #[trigger] raw_bcd@[k] == 0),
            decreases raw_bcd@.len() - i,
        {
            if raw_bcd[i] != 0 {
                blank = false;
            }
            i += 1;
        }
        if blank {
            let zeros = [0u8; 10];
            self.copy_in(CARD_OFFSET, zeros.as_slice(), CARD_LEN);
            self.mem.set(CARD_PRESENT_OFFSET, 0);
            assert(zeros@.subrange(0, 10) =~= Seq::new(10, |i: int| 0u8));
        } else {
            let n = if raw_bcd.len() < CARD_LEN { raw_bcd.len() } else { CARD_LEN };
            self.copy_in(CARD_OFFSET, raw_bcd, n);
            self.mem.set(CARD_PRESENT_OFFSET, 1);
        }
    }
}

/// What a slot that may hold the segment shows of it.
pub open spec fn segment_view(slot: Option<ShmemManager>) -> Option<Seq<u8>> {
    match slot {
        Some(m) => Some(m@),
        None => None,
    }
}

/// Installs the segment, given its current bytes, unless one is installed
/// already; a new one starts with the card region cleared.
pub fn init_shmem(slot: &mut Option<ShmemManager>, image: Vec<u8>)
    ensures
        *old(slot) is Some ==> *final(slot) == *old(slot),
        *old(slot) is None ==> segment_view(*final(slot)) == Some(
            card_written(image@, Seq::<u8>::empty()),
        ),
{
    if slot.is_none() {
        let mut manager = ShmemManager::new(image);
        let empty: [u8; 0] = [];
        manager.write_card_raw(empty.as_slice());
        assert(empty@ =~= Seq::<u8>::empty());
        *slot = Some(manager);
    }
}

} // verus!
