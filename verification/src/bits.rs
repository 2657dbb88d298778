//! Single-pin bit algebra.
//!
//! The device has no per-pin register, only whole bytes, so every pin
//! operation is a read-modify-write over one register. The byte
//! computations live here, stated once and shared by every engine that
//! drives the device; the lemmas pin down the read-modify-write laws the
//! driver's callers rely on.

use crate::registers::{PinConfig, PinLevel, PinPolarity};
use vstd::prelude::*;

verus! {

/// Whether bit `p` of `b` is set.
pub open spec fn bit_at(b: u8, p: u8) -> bool {
    (b >> p) & 1 == 1
}

/// The logic level bit `p` of `b` encodes.
pub open spec fn level_at(b: u8, p: u8) -> PinLevel {
    if bit_at(b, p) {
        PinLevel::High
    } else {
        PinLevel::Low
    }
}

/// `b` with bit `p` driven to `level`.
pub open spec fn with_level(b: u8, p: u8, level: PinLevel) -> u8 {
    match level {
        PinLevel::High => b | (1u8 << p),
        PinLevel::Low => b & !(1u8 << p),
    }
}

/// `b` with bit `p` flipped.
pub open spec fn with_toggled(b: u8, p: u8) -> u8 {
    b ^ (1u8 << p)
}

/// `b` with bit `p` set for an input pin, cleared for an output pin.
pub open spec fn with_config(b: u8, p: u8, config: PinConfig) -> u8 {
    match config {
        PinConfig::Input => b | (1u8 << p),
        PinConfig::Output => b & !(1u8 << p),
    }
}

/// `b` with bit `p` cleared for normal polarity, set for inverted.
pub open spec fn with_polarity(b: u8, p: u8, polarity: PinPolarity) -> u8 {
    match polarity {
        PinPolarity::Normal => b & !(1u8 << p),
        PinPolarity::Inverted => b | (1u8 << p),
    }
}

/// Drive bit `pin` of `port` to `level`, leaving the other bits alone.
pub fn apply_pin_level(port: u8, pin: u8, level: PinLevel) -> (r: u8)
    requires
        pin <= 7,
    ensures
        r == with_level(port, pin, level),
{
    match level {
        PinLevel::High => port | (1u8 << pin),
        PinLevel::Low => port & !(1u8 << pin),
    }
}

/// Flip bit `pin` of `port`, leaving the other bits alone.
pub fn apply_pin_toggle(port: u8, pin: u8) -> (r: u8)
    requires
        pin <= 7,
    ensures
        r == with_toggled(port, pin),
{
    port ^ (1u8 << pin)
}

/// Rewrite bit `pin` of the configuration byte `cfg` for `config`.
pub fn apply_pin_config(cfg: u8, pin: u8, config: PinConfig) -> (r: u8)
    requires
        pin <= 7,
    ensures
        r == with_config(cfg, pin, config),
{
    match config {
        PinConfig::Input => cfg | (1u8 << pin),
        PinConfig::Output => cfg & !(1u8 << pin),
    }
}

/// Rewrite bit `pin` of the polarity byte `pol` for `polarity`.
pub fn apply_pin_polarity(pol: u8, pin: u8, polarity: PinPolarity) -> (r: u8)
    requires
        pin <= 7,
    ensures
        r == with_polarity(pol, pin, polarity),
{
    match polarity {
        PinPolarity::Normal => pol & !(1u8 << pin),
        PinPolarity::Inverted => pol | (1u8 << pin),
    }
}

/// Extract the logic level of bit `pin` of `port`.
pub fn pin_level_of(port: u8, pin: u8) -> (r: PinLevel)
    requires
        pin <= 7,
    ensures
        r == level_at(port, pin),
{
    proof {
        assert((port >> pin) & 1 == 0 || (port >> pin) & 1 == 1) by (bit_vector);
    }
    if (port >> pin) & 1 == 0 {
        PinLevel::Low
    } else {
        PinLevel::High
    }
}

/// Law: after driving pin `p` of a port byte to `level`, bit `p` reads
/// back as exactly that level.
pub proof fn lemma_level_round_trip(b: u8, p: u8, level: PinLevel)
    requires
        p < 8,
    ensures
        level_at(with_level(b, p, level), p) == level,
{
    match level {
        PinLevel::High => {
            assert(((b | (1u8 << p)) >> p) & 1 == 1) by (bit_vector)
                requires
                    p < 8,
            ;
        },
        PinLevel::Low => {
            assert(((b & !(1u8 << p)) >> p) & 1 != 1) by (bit_vector)
                requires
                    p < 8,
            ;
        },
    }
}

/// Law: driving pin `p` of a port byte leaves every other bit exactly as
/// it was before.
pub proof fn lemma_level_keeps_others(b: u8, p: u8, level: PinLevel)
    requires
        p < 8,
    ensures
        forall|q: u8| q < 8 && q != p ==> bit_at(with_level(b, p, level), q) == bit_at(b, q),
{
    match level {
        PinLevel::High => {
            assert(forall|q: u8|
                q < 8 && q != p ==> #[trigger] (((b | (1u8 << p)) >> q) & 1) == (b >> q)
                    & 1) by (bit_vector)
                requires
                    p < 8,
            ;
        },
        PinLevel::Low => {
            assert(forall|q: u8|
                q < 8 && q != p ==> #[trigger] (((b & !(1u8 << p)) >> q) & 1) == (b >> q)
                    & 1) by (bit_vector)
                requires
                    p < 8,
            ;
        },
    }
}

/// Law: toggling the same pin of a port byte twice restores the byte.
pub proof fn lemma_toggle_twice(b: u8, p: u8)
    requires
        p < 8,
    ensures
        with_toggled(with_toggled(b, p), p) == b,
{
    assert((b ^ (1u8 << p)) ^ (1u8 << p) == b) by (bit_vector);
}

/// Law: configuring a pin as output and back as input restores the
/// configuration byte, provided the pin was configured as input before.
pub proof fn lemma_config_round_trip(b: u8, p: u8)
    requires
        p < 8,
        bit_at(b, p),
    ensures
        with_config(with_config(b, p, PinConfig::Output), p, PinConfig::Input) == b,
{
    assert(((b & !(1u8 << p)) | (1u8 << p)) == b) by (bit_vector)
        requires
            p < 8 && (b >> p) & 1 == 1,
    ;
}

} // verus!
