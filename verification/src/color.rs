use vstd::prelude::*;

verus! {

/// Number of records the storage buffer holds, fixed at creation.
pub const BUFFER_LEN: usize = 5;

/// One color channel of a buffer record.
///
/// `Level { value }` is a constant channel holding `value` color units.
/// `Wave { base, shift }` is a time-varying channel: at frame time `T`
/// seconds its value is `sin(5*T + base + shift) / 2 + 5` — one shared
/// sine curve (amplitude one half, centre 5, rate five times the elapsed
/// seconds), phase-shifted by `base + shift` radians. The trigonometric
/// evaluation is floating-point work for the renderer; the channel itself
/// is an exact description of the curve.
#[derive(Clone, Copy, Debug, PartialEq, Eq, Structural)]
pub enum Channel {
    Level { value: u32 },
    Wave { base: u32, shift: u32 },
}

/// One fixed-size record of the storage buffer: red, green, blue, alpha.
#[derive(Clone, Copy, Debug, PartialEq, Eq, Structural)]
pub struct ColorRecord {
    pub r: Channel,
    pub g: Channel,
    pub b: Channel,
    pub a: Channel,
}

/// A fully opaque alpha channel: exactly one color unit.
pub open spec fn opaque_alpha() -> Channel {
    Channel::Level { value: 1 }
}

/// A constant, fully opaque color.
pub open spec fn solid_color(r: u32, g: u32, b: u32) -> ColorRecord {
    ColorRecord {
        r: Channel::Level { value: r },
        g: Channel::Level { value: g },
        b: Channel::Level { value: b },
        a: opaque_alpha(),
    }
}

/// The palette the buffer is created with: red, green, blue, yellow, cyan,
/// each fully opaque.
pub open spec fn initial_colors_spec() -> Seq<ColorRecord> {
    seq![
        solid_color(1, 0, 0),
        solid_color(0, 1, 0),
        solid_color(0, 0, 1),
        solid_color(1, 1, 0),
        solid_color(0, 1, 1),
    ]
}

/// Record `i` of a frame update: the same sine curve on all three color
/// channels, phase-shifted by 0, 2 and 4 radians beyond the record's own
/// base phase `i`, and a fully opaque alpha.
pub open spec fn frame_record(i: int) -> ColorRecord {
    ColorRecord {
        r: Channel::Wave { base: i as u32, shift: 0 },
        g: Channel::Wave { base: i as u32, shift: 2 },
        b: Channel::Wave { base: i as u32, shift: 4 },
        a: opaque_alpha(),
    }
}

/// The full contents a frame update writes: one record per buffer slot.
pub open spec fn frame_colors_spec() -> Seq<ColorRecord> {
    Seq::new(BUFFER_LEN as nat, |i: int| frame_record(i))
}

/// Builds the initial palette.
pub fn initial_colors() -> (out: Vec<ColorRecord>)
    ensures
        out@ == initial_colors_spec(),
{
    let mut out: Vec<ColorRecord> = Vec::new();
    out.push(solid(1, 0, 0));
    out.push(solid(0, 1, 0));
    out.push(solid(0, 0, 1));
    out.push(solid(1, 1, 0));
    out.push(solid(0, 1, 1));
    proof {
        assert(out@ =~= initial_colors_spec());
    }
    out
}

/// Builds the records a frame update writes into the buffer.
pub fn frame_colors() -> (out: Vec<ColorRecord>)
    ensures
        out@ == frame_colors_spec(),
        out@.len() == BUFFER_LEN,
{
    let mut out: Vec<ColorRecord> = Vec::new();
    let mut i: u32 = 0;
    while i < 5
        invariant
            i <= 5,
            out@.len() == i,
            forall|k: int| 0 <= k < i ==> out@[k] == frame_record(k),
        decreases 5 - i,
    {
        out.push(ColorRecord {
            r: Channel::Wave { base: i, shift: 0 },
            g: Channel::Wave { base: i, shift: 2 },
            b: Channel::Wave { base: i, shift: 4 },
            a: Channel::Level { value: 1 },
        });
        i = i + 1;
    }
    proof {
        assert(out@ =~= frame_colors_spec());
    }
    out
}

fn solid(r: u32, g: u32, b: u32) -> (c: ColorRecord)
    ensures
        c == solid_color(r, g, b),
{
    ColorRecord {
        r: Channel::Level { value: r },
        g: Channel::Level { value: g },
        b: Channel::Level { value: b },
        a: Channel::Level { value: 1 },
    }
}

/// Law: a frame update and the initial palette both hold exactly
/// `BUFFER_LEN` records.
pub proof fn lemma_record_counts()
    ensures
        frame_colors_spec().len() == BUFFER_LEN,
        initial_colors_spec().len() == BUFFER_LEN,
{
}

/// Law: every record is fully opaque — the alpha channel of each buffer
/// slot, whether from the initial palette or from any frame update, is
/// exactly the constant 1.
pub proof fn lemma_alpha_always_opaque(i: int)
    requires
        0 <= i < BUFFER_LEN,
    ensures
        frame_colors_spec()[i].a == opaque_alpha(),
        initial_colors_spec()[i].a == opaque_alpha(),
{
}

/// Law: within each updated record the three color channels are the same
/// sine curve, differing only by phase shifts of 0, 2 and 4 radians from
/// the record's base phase.
pub proof fn lemma_channel_phase_shifts(i: int)
    requires
        0 <= i < BUFFER_LEN,
    ensures
        frame_colors_spec()[i].r == (Channel::Wave { base: i as u32, shift: 0 }),
        frame_colors_spec()[i].g == (Channel::Wave { base: i as u32, shift: 2 }),
        frame_colors_spec()[i].b == (Channel::Wave { base: i as u32, shift: 4 }),
{
}

} // verus!
