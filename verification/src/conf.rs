//! Settings of the device and the builder that collects them.

use vstd::arithmetic::power2::{lemma2_to64, pow2};
use vstd::prelude::*;

verus! {

/// Measurement range.
#[allow(non_camel_case_types)]
#[derive(Clone, Copy, Debug, PartialEq, Eq)]
pub enum Range {
    /// ±2 g
    _2G,
    /// ±4 g
    _4G,
    /// ±8 g
    _8G,
}

impl Range {
    /// The two-bit code of the range in the range register.
    pub open spec fn spec_val(self) -> u8 {
        match self {
            Range::_2G => 0b01,
            Range::_4G => 0b10,
            Range::_8G => 0b11,
        }
    }

    /// The acceleration, in thousandths of a g, that the largest positive
    /// sample stands for. It lies above the nominal range by the headroom that
    /// the manufacturer specifies: 2.048 g, 4.096 g and 8.192 g.
    pub open spec fn spec_full_scale_milli_g(self) -> u32 {
        match self {
            Range::_2G => 2_048,
            Range::_4G => 4_096,
            Range::_8G => 8_192,
        }
    }

    #[verifier::when_used_as_spec(spec_val)]
    pub fn val(self) -> (code: u8)
        ensures
            code == self.spec_val(),
    {
        match self {
            Range::_2G => 0b01,
            Range::_4G => 0b10,
            Range::_8G => 0b11,
        }
    }

    /// Full scale of the range in thousandths of a g.
    #[verifier::when_used_as_spec(spec_full_scale_milli_g)]
    pub fn full_scale_milli_g(self) -> (scale: u32)
        ensures
            scale == self.spec_full_scale_milli_g(),
    {
        match self {
            Range::_2G => 2_048,
            Range::_4G => 4_096,
            Range::_8G => 8_192,
        }
    }

    /// A range code takes two bits and is never zero.
    pub proof fn lemma_val_is_two_bit(self)
        ensures
            1 <= self.spec_val() <= 3,
    {
    }

    /// Each step of the code doubles the full scale: the full scale of code
    /// `c` is 1.024 g times two to the power `c`.
    pub proof fn lemma_full_scale_doubles(self)
        ensures
            self.spec_full_scale_milli_g() == 1_024 * pow2(self.spec_val() as nat),
    {
        lemma2_to64();
    }
}

impl Default for Range {
    fn default() -> (range: Self)
        ensures
            range == Range::_2G,
    {
        Range::_2G
    }
}

/// Output data rate (odr) and low pass filter corner frequency (lpf).
///
/// The corner of the low pass filter is a quarter of the output data rate.
#[allow(non_camel_case_types)]
#[derive(Clone, Copy, Debug, PartialEq, Eq)]
pub enum ODR_LPF {
    /// odr = 4000 Hz and lpf = 1000 Hz
    ODR_4000_Hz,
    /// odr = 2000 Hz and lpf = 500 Hz
    ODR_2000_Hz,
    /// odr = 1000 Hz and lpf = 250 Hz
    ODR_1000_Hz,
    /// odr = 500 Hz and lpf = 125 Hz
    ODR_500_Hz,
    /// odr = 250 Hz and lpf = 62.5 Hz
    ODR_250_Hz,
    /// odr = 125 Hz and lpf = 31.25 Hz
    ODR_125_Hz,
    /// odr = 62.5 Hz and lpf = 15.625 Hz
    ODR_62_5_Hz,
    /// odr = 31.25 Hz and lpf = 7.813 Hz
    ODR_31_25_Hz,
    /// odr = 15.625 Hz and lpf = 3.906 Hz
    ODR_15_625_Hz,
    /// odr = 7.813 Hz and lpf = 1.953 Hz
    ODR_7_813_Hz,
    /// odr = 3.906 Hz and lpf = 0.977 Hz
    ODR_3_906_Hz,
}

impl ODR_LPF {
    /// The four-bit code of the rate in the filter register.
    pub open spec fn spec_val(self) -> u8 {
        match self {
            ODR_LPF::ODR_4000_Hz => 0,
            ODR_LPF::ODR_2000_Hz => 1,
            ODR_LPF::ODR_1000_Hz => 2,
            ODR_LPF::ODR_500_Hz => 3,
            ODR_LPF::ODR_250_Hz => 4,
            ODR_LPF::ODR_125_Hz => 5,
            ODR_LPF::ODR_62_5_Hz => 6,
            ODR_LPF::ODR_31_25_Hz => 7,
            ODR_LPF::ODR_15_625_Hz => 8,
            ODR_LPF::ODR_7_813_Hz => 9,
            ODR_LPF::ODR_3_906_Hz => 10,
        }
    }

    /// The output data rate in thousandths of a hertz, as the data sheet
    /// rounds it.
    pub open spec fn spec_rate_millihertz(self) -> u32 {
        match self {
            ODR_LPF::ODR_4000_Hz => 4_000_000,
            ODR_LPF::ODR_2000_Hz => 2_000_000,
            ODR_LPF::ODR_1000_Hz => 1_000_000,
            ODR_LPF::ODR_500_Hz => 500_000,
            ODR_LPF::ODR_250_Hz => 250_000,
            ODR_LPF::ODR_125_Hz => 125_000,
            ODR_LPF::ODR_62_5_Hz => 62_500,
            ODR_LPF::ODR_31_25_Hz => 31_250,
            ODR_LPF::ODR_15_625_Hz => 15_625,
            ODR_LPF::ODR_7_813_Hz => 7_813,
            ODR_LPF::ODR_3_906_Hz => 3_906,
        }
    }

    #[verifier::when_used_as_spec(spec_val)]
    pub fn val(self) -> (code: u8)
        ensures
            code == self.spec_val(),
    {
        match self {
            ODR_LPF::ODR_4000_Hz => 0,
            ODR_LPF::ODR_2000_Hz => 1,
            ODR_LPF::ODR_1000_Hz => 2,
            ODR_LPF::ODR_500_Hz => 3,
            ODR_LPF::ODR_250_Hz => 4,
            ODR_LPF::ODR_125_Hz => 5,
            ODR_LPF::ODR_62_5_Hz => 6,
            ODR_LPF::ODR_31_25_Hz => 7,
            ODR_LPF::ODR_15_625_Hz => 8,
            ODR_LPF::ODR_7_813_Hz => 9,
            ODR_LPF::ODR_3_906_Hz => 10,
        }
    }

    /// Output data rate in thousandths of a hertz.
    #[verifier::when_used_as_spec(spec_rate_millihertz)]
    pub fn rate_millihertz(self) -> (rate: u32)
        ensures
            rate == self.spec_rate_millihertz(),
    {
        match self {
            ODR_LPF::ODR_4000_Hz => 4_000_000,
            ODR_LPF::ODR_2000_Hz => 2_000_000,
            ODR_LPF::ODR_1000_Hz => 1_000_000,
            ODR_LPF::ODR_500_Hz => 500_000,
            ODR_LPF::ODR_250_Hz => 250_000,
            ODR_LPF::ODR_125_Hz => 125_000,
            ODR_LPF::ODR_62_5_Hz => 62_500,
            ODR_LPF::ODR_31_25_Hz => 31_250,
            ODR_LPF::ODR_15_625_Hz => 15_625,
            ODR_LPF::ODR_7_813_Hz => 7_813,
            ODR_LPF::ODR_3_906_Hz => 3_906,
        }
    }

    /// A rate code fits in the low nibble of the filter register.
    pub proof fn lemma_val_is_four_bit(self)
        ensures
            self.spec_val() <= 10,
    {
    }

    /// Each step of the code halves the rate: the rate of code `c` is 4000 Hz
    /// divided by two to the power `c`, rounded to the nearest thousandth of a
    /// hertz.
    pub proof fn lemma_rate_halves(self)
        ensures
            ({
                let scaled = self.spec_rate_millihertz() * pow2(self.spec_val() as nat);
                let step = pow2(self.spec_val() as nat);
                2 * (4_000_000 - scaled) <= step && 2 * (scaled - 4_000_000) <= step
            }),
    {
        lemma2_to64();
        match self {
            ODR_LPF::ODR_4000_Hz => {},
            ODR_LPF::ODR_2000_Hz => {},
            ODR_LPF::ODR_1000_Hz => {},
            ODR_LPF::ODR_500_Hz => {},
            ODR_LPF::ODR_250_Hz => {},
            ODR_LPF::ODR_125_Hz => {},
            ODR_LPF::ODR_62_5_Hz => {},
            ODR_LPF::ODR_31_25_Hz => {},
            ODR_LPF::ODR_15_625_Hz => {},
            ODR_LPF::ODR_7_813_Hz => {},
            ODR_LPF::ODR_3_906_Hz => {},
        }
    }
}

impl Default for ODR_LPF {
    fn default() -> (odr: Self)
        ensures
            odr == ODR_LPF::ODR_3_906_Hz,
    {
        ODR_LPF::ODR_3_906_Hz
    }
}

/// Corner frequency of the high pass filter, which is proportional to the
/// output data rate (ODR).
#[allow(non_camel_case_types)]
#[derive(Clone, Copy, Debug, PartialEq, Eq)]
pub enum HPF_CORNER {
    /// no high pass filter
    NONE,
    /// corner freq = 247 × 10^-3 × ODR
    _247_ODR,
    /// corner freq = 62.084 × 10^-3 × ODR
    _62_084_ODR,
    /// corner freq = 15.545 × 10^-3 × ODR
    _15_545_ODR,
    /// corner freq = 3.862 × 10^-3 × ODR
    _3_862_ODR,
    /// corner freq = 0.954 × 10^-3 × ODR
    _0_954_ODR,
    /// corner freq = 0.238 × 10^-3 × ODR
    _0_238_ODR,
}

impl HPF_CORNER {
    /// The three-bit code of the corner in the filter register.
    pub open spec fn spec_val(self) -> u8 {
        match self {
            HPF_CORNER::NONE => 0,
            HPF_CORNER::_247_ODR => 1,
            HPF_CORNER::_62_084_ODR => 2,
            HPF_CORNER::_15_545_ODR => 3,
            HPF_CORNER::_3_862_ODR => 4,
            HPF_CORNER::_0_954_ODR => 5,
            HPF_CORNER::_0_238_ODR => 6,
        }
    }

    #[verifier::when_used_as_spec(spec_val)]
    pub fn val(self) -> (code: u8)
        ensures
            code == self.spec_val(),
    {
        match self {
            HPF_CORNER::NONE => 0,
            HPF_CORNER::_247_ODR => 1,
            HPF_CORNER::_62_084_ODR => 2,
            HPF_CORNER::_15_545_ODR => 3,
            HPF_CORNER::_3_862_ODR => 4,
            HPF_CORNER::_0_954_ODR => 5,
            HPF_CORNER::_0_238_ODR => 6,
        }
    }

    /// A corner code fits in three bits.
    pub proof fn lemma_val_is_three_bit(self)
        ensures
            self.spec_val() <= 6,
    {
    }
}

impl Default for HPF_CORNER {
    fn default() -> (hpf: Self)
        ensures
            hpf == HPF_CORNER::NONE,
    {
        HPF_CORNER::NONE
    }
}

/// The three settings a device runs with.
#[derive(Clone, Copy, Debug, PartialEq, Eq)]
pub struct Settings {
    pub range: Range,
    pub odr: ODR_LPF,
    pub hpf: HPF_CORNER,
}

impl Settings {
    /// The value of the filter register: the code of the high pass corner in
    /// bits 4 to 6 above the code of the output data rate in bits 0 to 3.
    pub open spec fn spec_filter(self) -> u8 {
        (self.hpf.spec_val() * 16 + self.odr.spec_val()) as u8
    }

    #[verifier::when_used_as_spec(spec_filter)]
    pub fn filter(self) -> (value: u8)
        ensures
            value == self.spec_filter(),
            value == self.hpf.spec_val() * 16 + self.odr.spec_val(),
    {
        let hpf: u8 = self.hpf.val();
        let odr: u8 = self.odr.val();
        assert((hpf << 4) | odr == hpf * 16 + odr) by (bit_vector)
            requires
                hpf <= 6,
                odr <= 10,
        ;
        (hpf << 4) | odr
    }

    /// Both codes can be read back from the value of the filter register, and
    /// its highest bit is clear.
    pub proof fn lemma_filter_holds_both_codes(self)
        ensures
            self.spec_filter() % 16 == self.odr.spec_val(),
            self.spec_filter() / 16 == self.hpf.spec_val(),
            self.spec_filter() < 0x80,
    {
    }
}

/// ADXL355 configuration: a setting that was never chosen takes its default
/// when the configuration is used.
pub struct Config {
    pub(crate) range: Option<Range>,
    pub(crate) odr: Option<ODR_LPF>,
    pub(crate) hpf: Option<HPF_CORNER>,
}

impl View for Config {
    type V = Settings;

    /// The settings that the configuration stands for: each one as it was
    /// chosen, or its default.
    open spec fn view(&self) -> Settings {
        Config::resolved(self.chosen())
    }
}

impl Config {
    /// What was chosen so far: the range, the output data rate and the high
    /// pass corner, each `None` until it is set.
    pub closed spec fn chosen(&self) -> (Option<Range>, Option<ODR_LPF>, Option<HPF_CORNER>) {
        (self.range, self.odr, self.hpf)
    }

    /// The settings that a choice stands for: what was chosen, and the default
    /// of what was not.
    pub open spec fn resolved(
        chosen: (Option<Range>, Option<ODR_LPF>, Option<HPF_CORNER>),
    ) -> Settings {
        Settings {
            range: match chosen.0 {
                Some(range) => range,
                None => Range::_2G,
            },
            odr: match chosen.1 {
                Some(odr) => odr,
                None => ODR_LPF::ODR_3_906_Hz,
            },
            hpf: match chosen.2 {
                Some(hpf) => hpf,
                None => HPF_CORNER::NONE,
            },
        }
    }

    /// The settings of a configuration in which nothing was chosen.
    pub open spec fn defaults() -> Settings {
        Settings { range: Range::_2G, odr: ODR_LPF::ODR_3_906_Hz, hpf: HPF_CORNER::NONE }
    }

    /// A configuration stands for each setting that was chosen, and for the
    /// default of each that was not: ±2 g, 3.906 Hz and no high pass filter.
    pub proof fn lemma_view_takes_chosen_or_default(&self)
        ensures
            self@.range == (match self.chosen().0 {
                Some(range) => range,
                None => Range::_2G,
            }),
            self@.odr == (match self.chosen().1 {
                Some(odr) => odr,
                None => ODR_LPF::ODR_3_906_Hz,
            }),
            self@.hpf == (match self.chosen().2 {
                Some(hpf) => hpf,
                None => HPF_CORNER::NONE,
            }),
            self.chosen() == (None::<Range>, None::<ODR_LPF>, None::<HPF_CORNER>) ==> self@
                == Config::defaults(),
    {
    }

    /// Creates a new configuration object in which nothing is chosen, so that
    /// it stands for the default values
    pub fn new() -> (config: Self)
        ensures
            config.chosen() == (None::<Range>, None::<ODR_LPF>, None::<HPF_CORNER>),
            config@ == Config::defaults(),
    {
        Config { range: None, odr: None, hpf: None }
    }

    /// Sets the range configuration and leaves the other two settings as they
    /// are
    ///
    /// Default is 2G
    pub fn range(&mut self, range: Range) -> (config: &mut Self)
        ensures
            config.chosen() == (Some(range), old(self).chosen().1, old(self).chosen().2),
            config@ == (Settings { range, ..old(self)@ }),
            *final(self) == *final(config),
    {
        self.range = Some(range);
        self
    }

    /// Sets the output data rate and low pass filter settings and leaves the
    /// other two settings as they are
    ///
    /// Default data rate is `3.906 Hz`.
    /// The low pass filter is fixed as 1/4 of the output data rate (fs)
    pub fn odr(&mut self, odr: ODR_LPF) -> (config: &mut Self)
        ensures
            config.chosen() == (old(self).chosen().0, Some(odr), old(self).chosen().2),
            config@ == (Settings { odr, ..old(self)@ }),
            *final(self) == *final(config),
    {
        self.odr = Some(odr);
        self
    }

    /// Sets the -3dB corner frequency for the high pass filter and leaves the
    /// other two settings as they are
    ///
    /// Default is no high pass filter
    pub fn hpf(&mut self, hpf: HPF_CORNER) -> (config: &mut Self)
        ensures
            config.chosen() == (old(self).chosen().0, old(self).chosen().1, Some(hpf)),
            config@ == (Settings { hpf, ..old(self)@ }),
            *final(self) == *final(config),
    {
        self.hpf = Some(hpf);
        self
    }

    /// The settings that the configuration stands for: each one as it was
    /// last set, or its default.
    pub fn resolve(&self) -> (settings: Settings)
        ensures
            settings == self@,
    {
        Settings {
            range: match self.range {
                Some(range) => range,
                None => Range::default(),
            },
            odr: match self.odr {
                Some(odr) => odr,
                None => ODR_LPF::default(),
            },
            hpf: match self.hpf {
                Some(hpf) => hpf,
                None => HPF_CORNER::default(),
            },
        }
    }
}

} // verus!
