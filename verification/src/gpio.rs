//! General Purpose Input / Output
//!
//! A bank has sixteen pins at most. The mode register and the pull register
//! hold two bits per pin, the output type register one bit per pin, and the
//! two alternate function registers four bits per pin: the low one for pins
//! 0 to 7, the high one for pins 8 to 15. A pin's mode is part of its type. A
//! change of mode takes the pin and the proxies of the registers that it
//! writes, replaces the pin's own field in each and keeps the fields of the
//! other pins.

use crate::field::{
    bit, bits_of, lemma_set_pair_restores, lemma_set_pair_view, nibbles_of, pair, pairs_of,
    set_bit, set_nibble, set_pair, test_bit, with_bit, with_nibble, with_pair,
};
use crate::rcc::{GateRegister, GateWrite, AHB};
use core::marker::PhantomData;
use vstd::prelude::*;

verus! {

/// Mode field: input.
pub const MODE_INPUT: u32 = 0b00;

/// Mode field: general purpose output.
pub const MODE_OUTPUT: u32 = 0b01;

/// Mode field: alternate function.
pub const MODE_ALTERNATE: u32 = 0b10;

/// Pull field: neither pull-up nor pull-down.
pub const PULL_NONE: u32 = 0b00;

/// Pull field: pull-up.
pub const PULL_UP: u32 = 0b01;

/// Pull field: pull-down.
pub const PULL_DOWN: u32 = 0b10;

/// Extension trait to split a GPIO peripheral in independent pins
pub trait GpioExt {
    /// GPIO pins
    type Parts;

    /// Splits the GPIO block into independent pins
    fn split(self, ahb: &mut AHB) -> Self::Parts;
}

/// Input mode
pub struct Input<MODE> {
    _mode: PhantomData<MODE>,
}

/// Floating input
pub struct Floating;

/// Pulled down input
pub struct PullDown;

/// Pulled up input
pub struct PullUp;

/// Output mode
pub struct Output<MODE> {
    _mode: PhantomData<MODE>,
}

/// Push pull output
pub struct PushPull;

/// Open drain output
pub struct OpenDrain;

/// Alternate function
pub struct AF0;

/// Alternate function
pub struct AF1;

/// Alternate function
pub struct AF2;

/// Alternate function
pub struct AF3;

/// Alternate function
pub struct AF4;

/// Alternate function
pub struct AF5;

/// Alternate function
pub struct AF6;

/// Alternate function
pub struct AF7;

/// Alternate function
pub struct AF8;

/// Alternate function
pub struct AF9;

/// Alternate function
pub struct AF10;

/// Alternate function
pub struct AF11;

/// Alternate function
pub struct AF12;

/// Alternate function
pub struct AF13;

/// Alternate function
pub struct AF14;

/// Alternate function
pub struct AF15;

/// What distinguishes one bank from another.
#[derive(Clone, Copy, Debug, PartialEq, Eq, Structural)]
pub struct BankInfo {
    /// Bit `i` is set where pin `i` of the bank is offered.
    pub pins: u16,
    /// The bank's bit in the enable register and the reset register of the AHB.
    pub line: u8,
    /// The mode register after a reset of the bank.
    pub moder_reset: u32,
    /// The pull register after a reset of the bank.
    pub pupdr_reset: u32,
}

/// A GPIO bank.
pub trait Bank: Sized {
    /// Whether the bank offers pin `i`.
    spec fn offers(i: int) -> bool;

    /// The bank's description.
    spec fn info() -> BankInfo;

    /// The bank's description.
    fn describe() -> (d: BankInfo)
        ensures
            d == Self::info(),
    ;

    /// The description is well-formed: the line is a bit of a register, the
    /// mask of the pins holds the pins that the bank offers, and each of
    /// them is a floating input after a reset.
    proof fn lemma_info()
        ensures
            Self::info().line < 32,
            forall|i: int| Self::offers(i) ==> 0 <= i < 16,
            forall|i: int|
                0 <= i < 16 ==> #[trigger] bit(Self::info().pins as u32, i as u32) == Self::offers(
                    i,
                ),
            forall|i: int|
                Self::offers(i) ==> #[trigger] pairs_of(Self::info().moder_reset)[i] == MODE_INPUT,
            forall|i: int|
                Self::offers(i) ==> #[trigger] pairs_of(Self::info().pupdr_reset)[i] == PULL_NONE,
    ;
}

/// Every two-bit field of a register that holds zero is zero.
proof fn lemma_zero_fields()
    by (bit_vector)
    ensures
        forall|i: u32| i < 16 ==> #[trigger] pair(0, i) == 0,
{
}

/// Every one of the low sixteen bits of `0xffff` is set.
proof fn lemma_full_mask()
    by (bit_vector)
    ensures
        forall|i: u32| i < 16 ==> #[trigger] bit(0xffff, i),
{
}

/// GPIO bank A. Pins 13 to 15 serve the debugger after a reset and are
/// not offered.
pub struct GPIOA;

impl Bank for GPIOA {
    open spec fn offers(i: int) -> bool {
        0 <= i <= 12
    }

    open spec fn info() -> BankInfo {
        BankInfo { pins: 0x1fff, line: 17, moder_reset: 0xa800_0000, pupdr_reset: 0x6400_0000 }
    }

    fn describe() -> (d: BankInfo) {
        BankInfo { pins: 0x1fff, line: 17, moder_reset: 0xa800_0000, pupdr_reset: 0x6400_0000 }
    }

    proof fn lemma_info() {
        assert(forall|i: u32| i < 16 ==> #[trigger] bit(0x1fff, i) == (i <= 12)) by (bit_vector);
        assert(forall|i: u32| i <= 12 ==> #[trigger] pair(0xa800_0000, i) == 0) by (bit_vector);
        assert(forall|i: u32| i <= 12 ==> #[trigger] pair(0x6400_0000, i) == 0) by (bit_vector);
    }
}

/// GPIO bank B. Pins 3 and 4 serve the debugger after a reset and are not
/// offered.
pub struct GPIOB;

impl Bank for GPIOB {
    open spec fn offers(i: int) -> bool {
        0 <= i <= 2 || 5 <= i <= 15
    }

    open spec fn info() -> BankInfo {
        BankInfo { pins: 0xffe7, line: 18, moder_reset: 0x0000_0280, pupdr_reset: 0x0000_0100 }
    }

    fn describe() -> (d: BankInfo) {
        BankInfo { pins: 0xffe7, line: 18, moder_reset: 0x0000_0280, pupdr_reset: 0x0000_0100 }
    }

    proof fn lemma_info() {
        assert(forall|i: u32| i < 16 ==> #[trigger] bit(0xffe7, i) == (i <= 2 || 5 <= i))
            by (bit_vector);
        assert(forall|i: u32|
            i <= 2 || 5 <= i < 16 ==> #[trigger] pair(0x0000_0280, i) == 0) by (bit_vector);
        assert(forall|i: u32|
            i <= 2 || 5 <= i < 16 ==> #[trigger] pair(0x0000_0100, i) == 0) by (bit_vector);
    }
}

/// GPIO bank C.
pub struct GPIOC;

impl Bank for GPIOC {
    open spec fn offers(i: int) -> bool {
        0 <= i <= 15
    }

    open spec fn info() -> BankInfo {
        BankInfo { pins: 0xffff, line: 19, moder_reset: 0, pupdr_reset: 0 }
    }

    fn describe() -> (d: BankInfo) {
        BankInfo { pins: 0xffff, line: 19, moder_reset: 0, pupdr_reset: 0 }
    }

    proof fn lemma_info() {
        lemma_full_mask();
        lemma_zero_fields();
    }
}

/// GPIO bank D.
pub struct GPIOD;

impl Bank for GPIOD {
    open spec fn offers(i: int) -> bool {
        0 <= i <= 15
    }

    open spec fn info() -> BankInfo {
        BankInfo { pins: 0xffff, line: 20, moder_reset: 0, pupdr_reset: 0 }
    }

    fn describe() -> (d: BankInfo) {
        BankInfo { pins: 0xffff, line: 20, moder_reset: 0, pupdr_reset: 0 }
    }

    proof fn lemma_info() {
        lemma_full_mask();
        lemma_zero_fields();
    }
}

/// GPIO bank E.
pub struct GPIOE;

impl Bank for GPIOE {
    open spec fn offers(i: int) -> bool {
        0 <= i <= 15
    }

    open spec fn info() -> BankInfo {
        BankInfo { pins: 0xffff, line: 21, moder_reset: 0, pupdr_reset: 0 }
    }

    fn describe() -> (d: BankInfo) {
        BankInfo { pins: 0xffff, line: 21, moder_reset: 0, pupdr_reset: 0 }
    }

    proof fn lemma_info() {
        lemma_full_mask();
        lemma_zero_fields();
    }
}

/// GPIO bank F. Pins 0, 1, 2, 4, 6, 9 and 10 are offered.
pub struct GPIOF;

impl Bank for GPIOF {
    open spec fn offers(i: int) -> bool {
        i == 0 || i == 1 || i == 2 || i == 4 || i == 6 || i == 9 || i == 10
    }

    open spec fn info() -> BankInfo {
        BankInfo { pins: 0x0657, line: 22, moder_reset: 0, pupdr_reset: 0 }
    }

    fn describe() -> (d: BankInfo) {
        BankInfo { pins: 0x0657, line: 22, moder_reset: 0, pupdr_reset: 0 }
    }

    proof fn lemma_info() {
        assert(forall|i: u32|
            i < 16 ==> #[trigger] bit(0x0657, i) == (i == 0 || i == 1 || i == 2 || i == 4 || i == 6
                || i == 9 || i == 10)) by (bit_vector);
        lemma_zero_fields();
    }
}

/// Proxy of the mode register of bank `B`: two bits per pin.
pub struct MODER<B> {
    bits: u32,
    _bank: PhantomData<B>,
}

impl<B> MODER<B> {
    /// The image of the register.
    pub closed spec fn image(&self) -> u32 {
        self.bits
    }

    /// The mode fields of the sixteen pins, pin 0 first.
    pub open spec fn view(&self) -> Seq<u32> {
        pairs_of(self.image())
    }

    /// The image of the register.
    pub fn bits(&self) -> (bits: u32)
        ensures
            bits == self.image(),
    {
        self.bits
    }

    /// Replaces the image by what was read from the register.
    pub fn load(&mut self, bits: u32)
        ensures
            final(self).image() == bits,
    {
        self.bits = bits;
    }

    /// Replaces the mode field of pin `i`.
    fn set(&mut self, i: u8, mode: u32)
        requires
            i < 16,
            mode < 4,
        ensures
            final(self).image() == set_pair(old(self).image(), i as u32, mode),
            final(self)@ == old(self)@.update(i as int, mode),
    {
        self.bits = with_pair(self.bits, i, mode);
    }
}

/// Proxy of the pull register of bank `B`: two bits per pin.
pub struct PUPDR<B> {
    bits: u32,
    _bank: PhantomData<B>,
}

impl<B> PUPDR<B> {
    /// The image of the register.
    pub closed spec fn image(&self) -> u32 {
        self.bits
    }

    /// The pull fields of the sixteen pins, pin 0 first.
    pub open spec fn view(&self) -> Seq<u32> {
        pairs_of(self.image())
    }

    /// The image of the register.
    pub fn bits(&self) -> (bits: u32)
        ensures
            bits == self.image(),
    {
        self.bits
    }

    /// Replaces the image by what was read from the register.
    pub fn load(&mut self, bits: u32)
        ensures
            final(self).image() == bits,
    {
        self.bits = bits;
    }

    /// Replaces the pull field of pin `i`.
    fn set(&mut self, i: u8, pull: u32)
        requires
            i < 16,
            pull < 4,
        ensures
            final(self).image() == set_pair(old(self).image(), i as u32, pull),
            final(self)@ == old(self)@.update(i as int, pull),
    {
        self.bits = with_pair(self.bits, i, pull);
    }
}

/// Proxy of the output type register of bank `B`: one bit per pin, set for
/// open drain and clear for push pull, in the low half of the register.
pub struct OTYPER<B> {
    bits: u32,
    _bank: PhantomData<B>,
}

impl<B> OTYPER<B> {
    /// The image of the register.
    pub closed spec fn image(&self) -> u32 {
        self.bits
    }

    /// The 32 bits of the register, bit 0 first. Bit `i` is that of pin `i`.
    pub open spec fn view(&self) -> Seq<bool> {
        bits_of(self.image())
    }

    /// The image of the register.
    pub fn bits(&self) -> (bits: u32)
        ensures
            bits == self.image(),
    {
        self.bits
    }

    /// Replaces the image by what was read from the register.
    pub fn load(&mut self, bits: u32)
        ensures
            final(self).image() == bits,
    {
        self.bits = bits;
    }

    /// Replaces the output type bit of pin `i`.
    fn set(&mut self, i: u8, open_drain: bool)
        requires
            i < 16,
        ensures
            final(self).image() == set_bit(old(self).image(), i as u32, open_drain),
            final(self)@ == old(self)@.update(i as int, open_drain),
    {
        self.bits = with_bit(self.bits, i, open_drain);
    }
}

/// Proxy of one of the two alternate function registers of bank `B`: four
/// bits per pin, for pins 0 to 7 in the low register and for pins 8 to 15 in
/// the high one. Pin `i` has field `i % 8` of its register.
pub struct Afr<B, const HIGH: bool> {
    bits: u32,
    _bank: PhantomData<B>,
}

/// Proxy of the low alternate function register.
pub type AFRL<B> = Afr<B, false>;

/// Proxy of the high alternate function register.
pub type AFRH<B> = Afr<B, true>;

impl<B, const HIGH: bool> Afr<B, HIGH> {
    /// The image of the register.
    pub closed spec fn image(&self) -> u32 {
        self.bits
    }

    /// The eight alternate function fields, field 0 first.
    pub open spec fn view(&self) -> Seq<u32> {
        nibbles_of(self.image())
    }

    /// The image of the register.
    pub fn bits(&self) -> (bits: u32)
        ensures
            bits == self.image(),
    {
        self.bits
    }

    /// Replaces the image by what was read from the register.
    pub fn load(&mut self, bits: u32)
        ensures
            final(self).image() == bits,
    {
        self.bits = bits;
    }

    /// Replaces one alternate function field.
    fn set(&mut self, field: u8, af: u32)
        requires
            field < 8,
            af < 16,
        ensures
            final(self).image() == set_nibble(old(self).image(), field as u32, af),
            final(self)@ == old(self)@.update(field as int, af),
    {
        self.bits = with_nibble(self.bits, field, af);
    }
}

/// Which of the two alternate function registers a proxy stands for.
pub trait Half {
    /// Whether it is the high register.
    spec fn high() -> bool;
}

impl<B, const HIGH: bool> Half for Afr<B, HIGH> {
    open spec fn high() -> bool {
        HIGH
    }
}

/// The alternate function register that holds the field of pin `I`: the low
/// one for pins 0 to 7, the high one for pins 8 to 15.
pub trait Serves<const I: u8>: Half {
    /// Pin `I` is a pin of a bank, and the register is the high one exactly
    /// for the pins from 8 on.
    proof fn lemma_serves()
        ensures
            I < 16,
            Self::high() == (I >= 8),
    ;
}

impl<B> Serves<0> for Afr<B, false> {
    proof fn lemma_serves() {
    }
}

impl<B> Serves<1> for Afr<B, false> {
    proof fn lemma_serves() {
    }
}

impl<B> Serves<2> for Afr<B, false> {
    proof fn lemma_serves() {
    }
}

impl<B> Serves<3> for Afr<B, false> {
    proof fn lemma_serves() {
    }
}

impl<B> Serves<4> for Afr<B, false> {
    proof fn lemma_serves() {
    }
}

impl<B> Serves<5> for Afr<B, false> {
    proof fn lemma_serves() {
    }
}

impl<B> Serves<6> for Afr<B, false> {
    proof fn lemma_serves() {
    }
}

impl<B> Serves<7> for Afr<B, false> {
    proof fn lemma_serves() {
    }
}

impl<B> Serves<8> for Afr<B, true> {
    proof fn lemma_serves() {
    }
}

impl<B> Serves<9> for Afr<B, true> {
    proof fn lemma_serves() {
    }
}

impl<B> Serves<10> for Afr<B, true> {
    proof fn lemma_serves() {
    }
}

impl<B> Serves<11> for Afr<B, true> {
    proof fn lemma_serves() {
    }
}

impl<B> Serves<12> for Afr<B, true> {
    proof fn lemma_serves() {
    }
}

impl<B> Serves<13> for Afr<B, true> {
    proof fn lemma_serves() {
    }
}

impl<B> Serves<14> for Afr<B, true> {
    proof fn lemma_serves() {
    }
}

impl<B> Serves<15> for Afr<B, true> {
    proof fn lemma_serves() {
    }
}

/// The word that, written to the set/reset register, drives pin `i` high.
pub open spec fn set_word(i: u32) -> u32 {
    1u32 << i
}

/// The word that, written to the set/reset register, drives pin `i` low.
pub open spec fn reset_word(i: u32) -> u32 {
    1u32 << ((16 + i) as u32)
}

/// The output data register after a write to the set/reset register: bit `i`
/// of the word sets output `i`, bit `16 + i` resets it, and a word that does
/// both sets it.
pub open spec fn output_after(odr: u32, word: u32) -> u32 {
    (odr & !(word >> 16)) | (word & 0xffff)
}

/// Output `j` after a write of `word`: set by bit `j` of the word, else
/// reset by bit `16 + j`, else as it was. The high half of the register stays.
proof fn lemma_output_bit(odr: u32, word: u32, j: u32)
    by (bit_vector)
    requires
        j < 32,
    ensures
        bit(output_after(odr, word), j) == (if j < 16 {
            bit(word, j) || (bit(odr, j) && !bit(word, (16 + j) as u32))
        } else {
            bit(odr, j)
        }),
{
}

/// The word `1 << i` has bit `i` set and no other.
proof fn lemma_word_bit(i: u32, j: u32)
    by (bit_vector)
    requires
        i < 32,
        j < 32,
    ensures
        bit(1u32 << i, j) == (j == i),
{
}

/// Writing the word that drives pin `i` high sets output `i` and keeps every
/// other output.
pub proof fn lemma_set_word_raises(odr: u32, i: u32)
    requires
        i < 16,
    ensures
        bits_of(output_after(odr, set_word(i))) == bits_of(odr).update(i as int, true),
{
    assert forall|j: int| 0 <= j < 32 implies #[trigger] bits_of(output_after(odr, set_word(i)))[j]
        == bits_of(odr).update(i as int, true)[j] by {
        lemma_output_bit(odr, set_word(i), j as u32);
        lemma_word_bit(i, j as u32);
        if j < 16 {
            lemma_word_bit(i, (16 + j) as u32);
        }
    }
    assert(bits_of(output_after(odr, set_word(i))) =~= bits_of(odr).update(i as int, true));
}

/// Writing the word that drives pin `i` low clears output `i` and keeps every
/// other output.
pub proof fn lemma_reset_word_lowers(odr: u32, i: u32)
    requires
        i < 16,
    ensures
        bits_of(output_after(odr, reset_word(i))) == bits_of(odr).update(i as int, false),
{
    assert forall|j: int| 0 <= j < 32 implies #[trigger] bits_of(
        output_after(odr, reset_word(i)),
    )[j] == bits_of(odr).update(i as int, false)[j] by {
        lemma_output_bit(odr, reset_word(i), j as u32);
        lemma_word_bit((16 + i) as u32, j as u32);
        if j < 16 {
            lemma_word_bit((16 + i) as u32, (16 + j) as u32);
        }
    }
    assert(bits_of(output_after(odr, reset_word(i))) =~= bits_of(odr).update(i as int, false));
}

/// A pin that is an input is made an output and then an input again: the mode
/// register is as it was before, with `00` in the pin's field, and at no time
/// did the field of another pin change.
pub proof fn lemma_mode_round_trip(moder: u32, i: u32)
    requires
        i < 16,
        pairs_of(moder)[i as int] == MODE_INPUT,
    ensures
        set_pair(set_pair(moder, i, MODE_OUTPUT), i, MODE_INPUT) == moder,
        pairs_of(set_pair(moder, i, MODE_OUTPUT)) == pairs_of(moder).update(i as int, MODE_OUTPUT),
        pairs_of(set_pair(set_pair(moder, i, MODE_OUTPUT), i, MODE_INPUT))[i as int] == MODE_INPUT,
        forall|j: int|
            0 <= j < 16 && j != i ==> pairs_of(set_pair(moder, i, MODE_OUTPUT))[j] == pairs_of(
                moder,
            )[j],
{
    lemma_set_pair_restores(moder, i, MODE_OUTPUT);
    lemma_set_pair_view(moder, i, MODE_OUTPUT);
}

/// Alternate function 7 on pin 10 puts `10` in bits 21 and 20 of the mode
/// register and `0111` in bits 11 to 8 of the high alternate function
/// register, and changes no other bit of either.
pub proof fn lemma_af7_on_pin_10(moder: u32, afrh: u32)
    by (bit_vector)
    ensures
        (set_pair(moder, 10, 0b10) >> 20) & 0b11 == 0b10,
        set_pair(moder, 10, 0b10) & !(0b11u32 << 20) == moder & !(0b11u32 << 20),
        (set_nibble(afrh, 2, 7) >> 8) & 0b1111 == 0b0111,
        set_nibble(afrh, 2, 7) & !(0b1111u32 << 8) == afrh & !(0b1111u32 << 8),
{
}

/// Pin `I` of bank `B`, in mode `MODE`.
pub struct Pin<B, const I: u8, MODE> {
    _bank: PhantomData<B>,
    _mode: PhantomData<MODE>,
}

impl<B, const I: u8, MODE> Pin<B, I, MODE> {
    /// A bank has pins 0 to 15.
    #[verifier::type_invariant]
    spec fn in_range(self) -> bool {
        I < 16
    }

    /// The pin, in whatever mode the caller has put it.
    fn new() -> (pin: Self)
        requires
            I < 16,
    {
        Pin { _bank: PhantomData, _mode: PhantomData }
    }

    /// The pin, where the mask of a bank's pins holds it.
    fn offered(pins: u32) -> (pin: Option<Self>)
        requires
            I < 16,
        ensures
            pin is Some == bit(pins, I as u32),
    {
        if test_bit(pins, I) {
            Some(Pin::new())
        } else {
            None
        }
    }

    /// Puts the pin in alternate function `af`.
    fn into_alternate<const HIGH: bool, AF>(
        self,
        moder: &mut MODER<B>,
        afr: &mut Afr<B, HIGH>,
        af: u32,
    ) -> (pin: Pin<B, I, AF>) where Afr<B, HIGH>: Serves<I>
        requires
            af < 16,
        ensures
            HIGH == (I >= 8),
            final(moder).image() == set_pair(old(moder).image(), I as u32, MODE_ALTERNATE),
            final(moder)@ == old(moder)@.update(I as int, MODE_ALTERNATE),
            final(afr).image() == set_nibble(old(afr).image(), (I % 8) as u32, af),
            final(afr)@ == old(afr)@.update(I as int % 8, af),
    {
        proof {
            use_type_invariant(&self);
            <Afr<B, HIGH> as Serves<I>>::lemma_serves();
        }
        moder.set(I, MODE_ALTERNATE);
        afr.set(I % 8, af);
        Pin::new()
    }

    /// Puts the pin in alternate function 4 (AF4)
    pub fn as_af4<const HIGH: bool>(self, moder: &mut MODER<B>, afr: &mut Afr<B, HIGH>) -> (pin:
        Pin<B, I, AF4>) where Afr<B, HIGH>: Serves<I>
        ensures
            HIGH == (I >= 8),
            final(moder).image() == set_pair(old(moder).image(), I as u32, MODE_ALTERNATE),
            final(moder)@ == old(moder)@.update(I as int, MODE_ALTERNATE),
            final(afr).image() == set_nibble(old(afr).image(), (I % 8) as u32, 4),
            final(afr)@ == old(afr)@.update(I as int % 8, 4),
    {
        self.into_alternate(moder, afr, 4)
    }

    /// Puts the pin in alternate function 5 (AF5)
    pub fn as_af5<const HIGH: bool>(self, moder: &mut MODER<B>, afr: &mut Afr<B, HIGH>) -> (pin:
        Pin<B, I, AF5>) where Afr<B, HIGH>: Serves<I>
        ensures
            HIGH == (I >= 8),
            final(moder).image() == set_pair(old(moder).image(), I as u32, MODE_ALTERNATE),
            final(moder)@ == old(moder)@.update(I as int, MODE_ALTERNATE),
            final(afr).image() == set_nibble(old(afr).image(), (I % 8) as u32, 5),
            final(afr)@ == old(afr)@.update(I as int % 8, 5),
    {
        self.into_alternate(moder, afr, 5)
    }

    /// Puts the pin in alternate function 6 (AF6)
    pub fn as_af6<const HIGH: bool>(self, moder: &mut MODER<B>, afr: &mut Afr<B, HIGH>) -> (pin:
        Pin<B, I, AF6>) where Afr<B, HIGH>: Serves<I>
        ensures
            HIGH == (I >= 8),
            final(moder).image() == set_pair(old(moder).image(), I as u32, MODE_ALTERNATE),
            final(moder)@ == old(moder)@.update(I as int, MODE_ALTERNATE),
            final(afr).image() == set_nibble(old(afr).image(), (I % 8) as u32, 6),
            final(afr)@ == old(afr)@.update(I as int % 8, 6),
    {
        self.into_alternate(moder, afr, 6)
    }

    /// Puts the pin in alternate function 7 (AF7)
    pub fn as_af7<const HIGH: bool>(self, moder: &mut MODER<B>, afr: &mut Afr<B, HIGH>) -> (pin:
        Pin<B, I, AF7>) where Afr<B, HIGH>: Serves<I>
        ensures
            HIGH == (I >= 8),
            final(moder).image() == set_pair(old(moder).image(), I as u32, MODE_ALTERNATE),
            final(moder)@ == old(moder)@.update(I as int, MODE_ALTERNATE),
            final(afr).image() == set_nibble(old(afr).image(), (I % 8) as u32, 7),
            final(afr)@ == old(afr)@.update(I as int % 8, 7),
    {
        self.into_alternate(moder, afr, 7)
    }

    /// Puts the pin in floating input mode
    pub fn as_floating_input(self, moder: &mut MODER<B>, pupdr: &mut PUPDR<B>) -> (pin: Pin<
        B,
        I,
        Input<Floating>,
    >)
        ensures
            final(moder).image() == set_pair(old(moder).image(), I as u32, MODE_INPUT),
            final(moder)@ == old(moder)@.update(I as int, MODE_INPUT),
            final(pupdr).image() == set_pair(old(pupdr).image(), I as u32, PULL_NONE),
            final(pupdr)@ == old(pupdr)@.update(I as int, PULL_NONE),
    {
        proof {
            use_type_invariant(&self);
        }
        moder.set(I, MODE_INPUT);
        pupdr.set(I, PULL_NONE);
        Pin::new()
    }

    /// Puts the pin in pull down input mode
    pub fn as_pull_down_input(self, moder: &mut MODER<B>, pupdr: &mut PUPDR<B>) -> (pin: Pin<
        B,
        I,
        Input<PullDown>,
    >)
        ensures
            final(moder).image() == set_pair(old(moder).image(), I as u32, MODE_INPUT),
            final(moder)@ == old(moder)@.update(I as int, MODE_INPUT),
            final(pupdr).image() == set_pair(old(pupdr).image(), I as u32, PULL_DOWN),
            final(pupdr)@ == old(pupdr)@.update(I as int, PULL_DOWN),
    {
        proof {
            use_type_invariant(&self);
        }
        moder.set(I, MODE_INPUT);
        pupdr.set(I, PULL_DOWN);
        Pin::new()
    }

    /// Puts the pin in pull up input mode
    pub fn as_pull_up_input(self, moder: &mut MODER<B>, pupdr: &mut PUPDR<B>) -> (pin: Pin<
        B,
        I,
        Input<PullUp>,
    >)
        ensures
            final(moder).image() == set_pair(old(moder).image(), I as u32, MODE_INPUT),
            final(moder)@ == old(moder)@.update(I as int, MODE_INPUT),
            final(pupdr).image() == set_pair(old(pupdr).image(), I as u32, PULL_UP),
            final(pupdr)@ == old(pupdr)@.update(I as int, PULL_UP),
    {
        proof {
            use_type_invariant(&self);
        }
        moder.set(I, MODE_INPUT);
        pupdr.set(I, PULL_UP);
        Pin::new()
    }

    /// Puts the pin in open drain output mode
    pub fn as_open_drain_output(self, moder: &mut MODER<B>, otyper: &mut OTYPER<B>) -> (pin: Pin<
        B,
        I,
        Output<OpenDrain>,
    >)
        ensures
            final(moder).image() == set_pair(old(moder).image(), I as u32, MODE_OUTPUT),
            final(moder)@ == old(moder)@.update(I as int, MODE_OUTPUT),
            final(otyper).image() == set_bit(old(otyper).image(), I as u32, true),
            final(otyper)@ == old(otyper)@.update(I as int, true),
    {
        proof {
            use_type_invariant(&self);
        }
        moder.set(I, MODE_OUTPUT);
        otyper.set(I, true);
        Pin::new()
    }

    /// Puts the pin in push pull output mode
    pub fn as_push_pull_output(self, moder: &mut MODER<B>, otyper: &mut OTYPER<B>) -> (pin: Pin<
        B,
        I,
        Output<PushPull>,
    >)
        ensures
            final(moder).image() == set_pair(old(moder).image(), I as u32, MODE_OUTPUT),
            final(moder)@ == old(moder)@.update(I as int, MODE_OUTPUT),
            final(otyper).image() == set_bit(old(otyper).image(), I as u32, false),
            final(otyper)@ == old(otyper)@.update(I as int, false),
    {
        proof {
            use_type_invariant(&self);
        }
        moder.set(I, MODE_OUTPUT);
        otyper.set(I, false);
        Pin::new()
    }
}

impl<B, const I: u8> Pin<B, I, Output<OpenDrain>> {
    /// Enables / disables the internal pull up
    pub fn internal_pull_up(&mut self, pupdr: &mut PUPDR<B>, on: bool)
        ensures
            final(pupdr).image() == set_pair(
                old(pupdr).image(),
                I as u32,
                if on {
                    PULL_UP
                } else {
                    PULL_NONE
                },
            ),
            final(pupdr)@ == old(pupdr)@.update(
                I as int,
                if on {
                    PULL_UP
                } else {
                    PULL_NONE
                },
            ),
    {
        proof {
            use_type_invariant(&*self);
        }
        pupdr.set(
            I,
            if on {
                PULL_UP
            } else {
                PULL_NONE
            },
        );
    }
}

impl<B, const I: u8, MODE> Pin<B, I, Output<MODE>> {
    /// Erases the pin number from the type
    ///
    /// This is useful when you want to collect the pins into an array where you
    /// need all the elements to have the same type
    pub fn downgrade(self) -> (pin: PXx<B, Output<MODE>>)
        ensures
            pin.index() == I,
    {
        proof {
            use_type_invariant(&self);
        }
        PXx { i: I, _bank: PhantomData, _mode: PhantomData }
    }

    /// Whether the output is driven high, told from the output data register.
    pub fn is_high(&self, odr: u32) -> (high: bool)
        ensures
            high == bits_of(odr)[I as int],
    {
        proof {
            use_type_invariant(self);
        }
        test_bit(odr, I)
    }

    /// Whether the output is driven low, told from the output data register.
    pub fn is_low(&self, odr: u32) -> (low: bool)
        ensures
            low == !bits_of(odr)[I as int],
    {
        !self.is_high(odr)
    }

    /// The word to write to the set/reset register to drive the output high.
    pub fn set_high(&mut self) -> (word: u32)
        ensures
            word == set_word(I as u32),
    {
        proof {
            use_type_invariant(&*self);
        }
        1u32 << (I as u32)
    }

    /// The word to write to the set/reset register to drive the output low.
    pub fn set_low(&mut self) -> (word: u32)
        ensures
            word == reset_word(I as u32),
    {
        proof {
            use_type_invariant(&*self);
        }
        1u32 << (16 + I as u32)
    }
}

/// Partially erased pin: a pin of bank `B` in mode `MODE` whose number is
/// held in the value.
pub struct PXx<B, MODE> {
    i: u8,
    _bank: PhantomData<B>,
    _mode: PhantomData<MODE>,
}

impl<B, MODE> PXx<B, MODE> {
    /// A bank has pins 0 to 15.
    #[verifier::type_invariant]
    spec fn in_range(self) -> bool {
        self.i < 16
    }

    /// The pin's number.
    pub closed spec fn index(&self) -> u8 {
        self.i
    }
}

impl<B, MODE> PXx<B, Output<MODE>> {
    /// Whether the output is driven high, told from the output data register.
    pub fn is_high(&self, odr: u32) -> (high: bool)
        ensures
            self.index() < 16,
            high == bits_of(odr)[self.index() as int],
    {
        proof {
            use_type_invariant(self);
        }
        test_bit(odr, self.i)
    }

    /// Whether the output is driven low, told from the output data register.
    pub fn is_low(&self, odr: u32) -> (low: bool)
        ensures
            self.index() < 16,
            low == !bits_of(odr)[self.index() as int],
    {
        !self.is_high(odr)
    }

    /// The word to write to the set/reset register to drive the output high.
    pub fn set_high(&mut self) -> (word: u32)
        ensures
            old(self).index() < 16,
            final(self).index() == old(self).index(),
            word == set_word(old(self).index() as u32),
    {
        proof {
            use_type_invariant(&*self);
        }
        1u32 << (self.i as u32)
    }

    /// The word to write to the set/reset register to drive the output low.
    pub fn set_low(&mut self) -> (word: u32)
        ensures
            old(self).index() < 16,
            final(self).index() == old(self).index(),
            word == reset_word(old(self).index() as u32),
    {
        proof {
            use_type_invariant(&*self);
        }
        1u32 << (16 + self.i as u32)
    }
}

/// GPIO parts
#[allow(non_snake_case)]
pub struct Parts<B> {
    /// Opaque AFRH register
    pub AFRH: AFRH<B>,
    /// Opaque AFRL register
    pub AFRL: AFRL<B>,
    /// Opaque MODER register
    pub MODER: MODER<B>,
    /// Opaque OTYPER register
    pub OTYPER: OTYPER<B>,
    /// Opaque PUPDR register
    pub PUPDR: PUPDR<B>,
    /// Pin 0, where the bank offers it
    pub p0: Option<Pin<B, 0, Input<Floating>>>,
    /// Pin 1, where the bank offers it
    pub p1: Option<Pin<B, 1, Input<Floating>>>,
    /// Pin 2, where the bank offers it
    pub p2: Option<Pin<B, 2, Input<Floating>>>,
    /// Pin 3, where the bank offers it
    pub p3: Option<Pin<B, 3, Input<Floating>>>,
    /// Pin 4, where the bank offers it
    pub p4: Option<Pin<B, 4, Input<Floating>>>,
    /// Pin 5, where the bank offers it
    pub p5: Option<Pin<B, 5, Input<Floating>>>,
    /// Pin 6, where the bank offers it
    pub p6: Option<Pin<B, 6, Input<Floating>>>,
    /// Pin 7, where the bank offers it
    pub p7: Option<Pin<B, 7, Input<Floating>>>,
    /// Pin 8, where the bank offers it
    pub p8: Option<Pin<B, 8, Input<Floating>>>,
    /// Pin 9, where the bank offers it
    pub p9: Option<Pin<B, 9, Input<Floating>>>,
    /// Pin 10, where the bank offers it
    pub p10: Option<Pin<B, 10, Input<Floating>>>,
    /// Pin 11, where the bank offers it
    pub p11: Option<Pin<B, 11, Input<Floating>>>,
    /// Pin 12, where the bank offers it
    pub p12: Option<Pin<B, 12, Input<Floating>>>,
    /// Pin 13, where the bank offers it
    pub p13: Option<Pin<B, 13, Input<Floating>>>,
    /// Pin 14, where the bank offers it
    pub p14: Option<Pin<B, 14, Input<Floating>>>,
    /// Pin 15, where the bank offers it
    pub p15: Option<Pin<B, 15, Input<Floating>>>,
}

impl<B> Parts<B> {
    /// Whether pin `i` is there.
    pub open spec fn has(&self, i: int) -> bool {
        if i == 0 {
            self.p0 is Some
        } else if i == 1 {
            self.p1 is Some
        } else if i == 2 {
            self.p2 is Some
        } else if i == 3 {
            self.p3 is Some
        } else if i == 4 {
            self.p4 is Some
        } else if i == 5 {
            self.p5 is Some
        } else if i == 6 {
            self.p6 is Some
        } else if i == 7 {
            self.p7 is Some
        } else if i == 8 {
            self.p8 is Some
        } else if i == 9 {
            self.p9 is Some
        } else if i == 10 {
            self.p10 is Some
        } else if i == 11 {
            self.p11 is Some
        } else if i == 12 {
            self.p12 is Some
        } else if i == 13 {
            self.p13 is Some
        } else if i == 14 {
            self.p14 is Some
        } else if i == 15 {
            self.p15 is Some
        } else {
            false
        }
    }
}

impl<B: Bank> GpioExt for B {
    type Parts = Parts<B>;

    /// Enables the bank's clock, resets the bank and hands out the proxies of
    /// its registers, which hold what a reset leaves, and the pins that the
    /// bank offers, each a floating input.
    fn split(self, ahb: &mut AHB) -> (parts: Parts<B>)
        ensures
            final(ahb).gate.enabled() == set_bit(
                old(ahb).gate.enabled(),
                B::info().line as u32,
                true,
            ),
            final(ahb).gate.held() == set_bit(old(ahb).gate.held(), B::info().line as u32, false),
            final(ahb).gate.pending() == old(ahb).gate.pending() + seq![
                (GateWrite { register: GateRegister::Enable, bits: final(ahb).gate.enabled() }),
                (GateWrite {
                    register: GateRegister::Reset,
                    bits: set_bit(old(ahb).gate.held(), B::info().line as u32, true),
                }),
                (GateWrite { register: GateRegister::Reset, bits: final(ahb).gate.held() }),
            ],
            parts.MODER.image() == B::info().moder_reset,
            parts.PUPDR.image() == B::info().pupdr_reset,
            parts.OTYPER.image() == 0,
            parts.AFRL.image() == 0,
            parts.AFRH.image() == 0,
            forall|i: int| #[trigger] parts.has(i) == B::offers(i),
            forall|i: int|
                #![trigger parts.has(i)]
                #![trigger parts.MODER@[i]]
                #![trigger parts.PUPDR@[i]]
                parts.has(i) ==> parts.MODER@[i] == MODE_INPUT && parts.PUPDR@[i] == PULL_NONE,
    {
        let info = B::describe();
        proof {
            B::lemma_info();
        }
        ahb.gate.enable(info.line);
        ahb.gate.reset(info.line);
        let pins: u32 = info.pins as u32;
        let parts = Parts {
            AFRH: Afr { bits: 0, _bank: PhantomData },
            AFRL: Afr { bits: 0, _bank: PhantomData },
            MODER: MODER { bits: info.moder_reset, _bank: PhantomData },
            OTYPER: OTYPER { bits: 0, _bank: PhantomData },
            PUPDR: PUPDR { bits: info.pupdr_reset, _bank: PhantomData },
        p0: Pin::offered(pins),
        p1: Pin::offered(pins),
        p2: Pin::offered(pins),
        p3: Pin::offered(pins),
        p4: Pin::offered(pins),
        p5: Pin::offered(pins),
        p6: Pin::offered(pins),
        p7: Pin::offered(pins),
        p8: Pin::offered(pins),
        p9: Pin::offered(pins),
        p10: Pin::offered(pins),
        p11: Pin::offered(pins),
        p12: Pin::offered(pins),
        p13: Pin::offered(pins),
        p14: Pin::offered(pins),
        p15: Pin::offered(pins),
        };
        assert forall|i: int| parts.has(i) implies parts.MODER@[i] == MODE_INPUT
            && parts.PUPDR@[i] == PULL_NONE by {
            assert(B::offers(i));
        }
        assert(final(ahb).gate.pending() =~= old(ahb).gate.pending() + seq![
            (GateWrite { register: GateRegister::Enable, bits: final(ahb).gate.enabled() }),
            (GateWrite {
                register: GateRegister::Reset,
                bits: set_bit(old(ahb).gate.held(), B::info().line as u32, true),
            }),
            (GateWrite { register: GateRegister::Reset, bits: final(ahb).gate.held() }),
        ]);
        parts
    }
}

} // verus!
