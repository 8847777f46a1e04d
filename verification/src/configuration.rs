//! The typed configuration of the encoder and the assembly of its argument
//! list. Every section of the configuration contributes a sub-list of tokens;
//! the whole list is the concatenation general, input, output.

use crate::error::ParseError;
use crate::text::{decimal, decimal_string, str_equal};
use vstd::prelude::*;

verus! {

// General options
pub const FORMAT_OPT: &'static str = "-f";

pub const INPUT_OPT: &'static str = "-i";

pub const OVERWRITE_OPT: &'static str = "-y";

pub const NO_OVERWRITE_OPT: &'static str = "-n";

pub const HIDE_BANNER_OPT: &'static str = "-hide_banner";

// Audio options
pub const CODEC_OPT: &'static str = "-codec:a";

pub const SAMPLE_RATE_OPT: &'static str = "-ar";

pub const CHANNELS_OPT: &'static str = "-ac";

pub const CHANNEL_LAYOUT_OPT: &'static str = "-channel_layout";

pub const SAMPLE_FORMAT: &'static str = "-sample_fmt";

pub const CONTENT_TYPE_OPT: &'static str = "-content_type";

// FLAC options
pub const COMPRESSION_LEVEL_OPT: &'static str = "-compression_level";

pub const FLAC_CODEC: &'static str = "flac";

// PCM options
pub const PCM_PREFIX: &'static str = "pcm_";

/// The tokens of a flag that is always present: its name, then its value.
pub open spec fn flag(name: Seq<char>, value: Seq<char>) -> Seq<Seq<char>> {
    seq![name, value]
}

/// The tokens of a flag that is present only when it has a value.
pub open spec fn optional_flag(name: Seq<char>, value: Option<Seq<char>>) -> Seq<Seq<char>> {
    match value {
        Some(v) => seq![name, v],
        None => Seq::empty(),
    }
}

/// The numeral of an optional small number, where there is one.
pub open spec fn optional_decimal_u8(value: Option<u8>) -> Option<Seq<char>> {
    match value {
        Some(n) => Some(decimal(n as nat)),
        None => None,
    }
}

/// The numeral of an optional number, where there is one.
pub open spec fn optional_decimal_u32(value: Option<u32>) -> Option<Seq<char>> {
    match value {
        Some(n) => Some(decimal(n as nat)),
        None => None,
    }
}

/// A part of the configuration that contributes tokens to the argument list.
pub trait CommandConfig {
    /// The tokens that this part contributes, in order.
    spec fn args(&self) -> Seq<Seq<char>>;

    /// Assembles the tokens of this part.
    fn to_vec(&self) -> (tokens: Vec<String>)
        ensures
            tokens.deep_view() == self.args(),
    ;
}

fn push_token(tokens: &mut Vec<String>, token: &str)
    ensures
        final(tokens).deep_view() == old(tokens).deep_view().push(token@),
{
    tokens.push(String::from_str(token));
    assert(tokens.deep_view() =~= old(tokens).deep_view().push(token@));
}

fn push_flag(tokens: &mut Vec<String>, name: &str, value: &str)
    ensures
        final(tokens).deep_view() == old(tokens).deep_view() + flag(name@, value@),
{
    push_token(tokens, name);
    push_token(tokens, value);
    assert(tokens.deep_view() =~= old(tokens).deep_view() + flag(name@, value@));
}

fn extend_tokens(tokens: &mut Vec<String>, more: Vec<String>)
    ensures
        final(tokens).deep_view() == old(tokens).deep_view() + more.deep_view(),
{
    let mut more = more;
    let ghost added = more.deep_view();
    let ghost raw = more@;
    tokens.append(&mut more);
    assert(tokens@ == old(tokens)@ + raw);
    assert(tokens.deep_view() =~= old(tokens).deep_view() + added);
}

/// Options that stand before everything else.
#[derive(Debug)]
pub struct GeneralConfig {
    pub overwrite: bool,
    pub hide_banner: bool,
}

impl CommandConfig for GeneralConfig {
    open spec fn args(&self) -> Seq<Seq<char>> {
        seq![if self.overwrite { OVERWRITE_OPT@ } else { NO_OVERWRITE_OPT@ }]
            + if self.hide_banner { seq![HIDE_BANNER_OPT@] } else { Seq::empty() }
    }

    fn to_vec(&self) -> (tokens: Vec<String>) {
        let overwrite = if self.overwrite { OVERWRITE_OPT } else { NO_OVERWRITE_OPT };
        let mut general: Vec<String> = Vec::new();
        push_token(&mut general, overwrite);
        if self.hide_banner {
            push_token(&mut general, HIDE_BANNER_OPT);
        }
        assert(general.deep_view() =~= self.args());
        general
    }
}

/// The characters of an optional string, where there is one.
pub open spec fn optional_text(value: Option<String>) -> Option<Seq<char>> {
    match value {
        Some(s) => Some(s@),
        None => None,
    }
}

fn push_optional_flag(tokens: &mut Vec<String>, name: &str, value: &Option<String>)
    ensures
        final(tokens).deep_view() == old(tokens).deep_view() + optional_flag(
            name@,
            optional_text(*value),
        ),
{
    match value {
        Some(v) => {
            push_flag(tokens, name, v.as_str());
        },
        None => {
            assert(tokens.deep_view() =~= old(tokens).deep_view() + Seq::<Seq<char>>::empty());
        },
    }
}

fn push_optional_number(tokens: &mut Vec<String>, name: &str, value: Option<u32>)
    ensures
        final(tokens).deep_view() == old(tokens).deep_view() + optional_flag(
            name@,
            optional_decimal_u32(value),
        ),
{
    match value {
        Some(n) => {
            let numeral = decimal_string(n);
            push_flag(tokens, name, numeral.as_str());
        },
        None => {
            assert(tokens.deep_view() =~= old(tokens).deep_view() + Seq::<Seq<char>>::empty());
        },
    }
}

/// The source that the encoder reads.
#[derive(Debug)]
pub struct StreamInput {
    pub input: String,
    pub input_type: String,
    pub sample_rate: Option<u32>,
    pub channels: Option<u8>,
    pub channel_layout: Option<String>,
    pub codec: Option<String>,
}

impl CommandConfig for StreamInput {
    open spec fn args(&self) -> Seq<Seq<char>> {
        optional_flag(CHANNELS_OPT@, optional_decimal_u8(self.channels))
            + optional_flag(CHANNEL_LAYOUT_OPT@, optional_text(self.channel_layout))
            + optional_flag(CODEC_OPT@, optional_text(self.codec))
            + flag(FORMAT_OPT@, self.input_type@)
            + optional_flag(SAMPLE_RATE_OPT@, optional_decimal_u32(self.sample_rate))
            + flag(INPUT_OPT@, self.input@)
    }

    fn to_vec(&self) -> (tokens: Vec<String>) {
        let mut input: Vec<String> = Vec::new();
        assert(input.deep_view() =~= Seq::<Seq<char>>::empty());
        let channels = match self.channels {
            Some(n) => Some(n as u32),
            None => None,
        };
        push_optional_number(&mut input, CHANNELS_OPT, channels);
        push_optional_flag(&mut input, CHANNEL_LAYOUT_OPT, &self.channel_layout);
        push_optional_flag(&mut input, CODEC_OPT, &self.codec);
        push_flag(&mut input, FORMAT_OPT, self.input_type.as_str());
        push_optional_number(&mut input, SAMPLE_RATE_OPT, self.sample_rate);
        push_flag(&mut input, INPUT_OPT, self.input.as_str());
        assert(input.deep_view() =~= self.args());
        input
    }
}

/// The FLAC encoder, with its optional compression level.
#[derive(Debug)]
pub struct Flac {
    pub compression_level: Option<u8>,
}

impl CommandConfig for Flac {
    open spec fn args(&self) -> Seq<Seq<char>> {
        flag(CODEC_OPT@, FLAC_CODEC@) + optional_flag(
            COMPRESSION_LEVEL_OPT@,
            optional_decimal_u8(self.compression_level),
        )
    }

    fn to_vec(&self) -> (tokens: Vec<String>) {
        let mut codec: Vec<String> = Vec::new();
        assert(codec.deep_view() =~= Seq::<Seq<char>>::empty());
        push_flag(&mut codec, CODEC_OPT, FLAC_CODEC);
        let level = match self.compression_level {
            Some(n) => Some(n as u32),
            None => None,
        };
        push_optional_number(&mut codec, COMPRESSION_LEVEL_OPT, level);
        assert(codec.deep_view() =~= self.args());
        codec
    }
}

/// Raw PCM, written by the encoder that `encoder` names.
#[derive(Debug)]
pub struct PulseCodeModulation {
    pub encoder: String,
}

impl CommandConfig for PulseCodeModulation {
    open spec fn args(&self) -> Seq<Seq<char>> {
        flag(CODEC_OPT@, PCM_PREFIX@ + self.encoder@)
    }

    fn to_vec(&self) -> (tokens: Vec<String>) {
        let mut codec: Vec<String> = Vec::new();
        assert(codec.deep_view() =~= Seq::<Seq<char>>::empty());
        let name = String::from_str(PCM_PREFIX).concat(self.encoder.as_str());
        push_flag(&mut codec, CODEC_OPT, name.as_str());
        assert(codec.deep_view() =~= self.args());
        codec
    }
}

/// The codec of the output: one variant for each known kind of codec, each
/// with its own fields and its own tokens.
#[derive(Debug)]
pub enum AudioCodec {
    Flac(Flac),
    Pcm(PulseCodeModulation),
}

impl CommandConfig for AudioCodec {
    open spec fn args(&self) -> Seq<Seq<char>> {
        match self {
            AudioCodec::Flac(flac) => flac.args(),
            AudioCodec::Pcm(pcm) => pcm.args(),
        }
    }

    fn to_vec(&self) -> (tokens: Vec<String>) {
        match self {
            AudioCodec::Flac(flac) => flac.to_vec(),
            AudioCodec::Pcm(pcm) => pcm.to_vec(),
        }
    }
}

/// The stream that the encoder writes.
#[derive(Debug)]
pub struct StreamOutput {
    pub output: String,
    pub channels: Option<u8>,
    pub sample_rate: u32,
    pub sample_format: Option<String>,
    pub codec: AudioCodec,
    pub container: Option<String>,
    pub content_type: Option<String>,
}

impl CommandConfig for StreamOutput {
    open spec fn args(&self) -> Seq<Seq<char>> {
        flag(SAMPLE_RATE_OPT@, decimal(self.sample_rate as nat))
            + optional_flag(SAMPLE_FORMAT@, optional_text(self.sample_format))
            + optional_flag(CHANNELS_OPT@, optional_decimal_u8(self.channels))
            + self.codec.args()
            + optional_flag(CONTENT_TYPE_OPT@, optional_text(self.content_type))
            + optional_flag(FORMAT_OPT@, optional_text(self.container))
            + seq![self.output@]
    }

    fn to_vec(&self) -> (tokens: Vec<String>) {
        let mut value: Vec<String> = Vec::new();
        assert(value.deep_view() =~= Seq::<Seq<char>>::empty());
        let rate = decimal_string(self.sample_rate);
        push_flag(&mut value, SAMPLE_RATE_OPT, rate.as_str());
        push_optional_flag(&mut value, SAMPLE_FORMAT, &self.sample_format);
        let channels = match self.channels {
            Some(n) => Some(n as u32),
            None => None,
        };
        push_optional_number(&mut value, CHANNELS_OPT, channels);
        extend_tokens(&mut value, self.codec.to_vec());
        push_optional_flag(&mut value, CONTENT_TYPE_OPT, &self.content_type);
        push_optional_flag(&mut value, FORMAT_OPT, &self.container);
        push_token(&mut value, self.output.as_str());
        assert(value.deep_view() =~= self.args());
        value
    }
}

/// The whole description of one encoder invocation.
#[derive(Debug)]
pub struct StreamConfig {
    pub general: GeneralConfig,
    pub input: StreamInput,
    pub output: StreamOutput,
}

impl CommandConfig for StreamConfig {
    open spec fn args(&self) -> Seq<Seq<char>> {
        self.general.args() + self.input.args() + self.output.args()
    }

    fn to_vec(&self) -> (tokens: Vec<String>) {
        let mut config = self.general.to_vec();
        extend_tokens(&mut config, self.input.to_vec());
        extend_tokens(&mut config, self.output.to_vec());
        config
    }
}

/// Assembly is deterministic: two argument lists assembled from one
/// configuration have the same tokens in the same order.
pub proof fn lemma_assembly_is_deterministic(
    config: StreamConfig,
    first: Vec<String>,
    second: Vec<String>,
)
    requires
        first.deep_view() == config.args(),
        second.deep_view() == config.args(),
    ensures
        first.deep_view() == second.deep_view(),
        first@.len() == second@.len(),
        forall|i: int| 0 <= i < first@.len() ==> first@[i]@ == second@[i]@,
{
    assert(first.deep_view().len() == first@.len());
    assert(second.deep_view().len() == second@.len());
    assert forall|i: int| 0 <= i < first@.len() implies first@[i]@ == second@[i]@ by {
        assert(first.deep_view()[i] == first@[i]@);
        assert(second.deep_view()[i] == second@[i]@);
    }
}

/// Where the codec's tokens begin in the tokens of an output: behind the
/// sample rate and the optional sample format and channel count.
pub open spec fn codec_offset(output: StreamOutput) -> int {
    2 + (if output.sample_format is Some { 2int } else { 0 })
        + (if output.channels is Some { 2int } else { 0 })
}

/// The order of the tokens of an output with FLAC and a compression level:
/// first the sample rate and its number, later and next to each other the
/// codec flag, `flac`, the compression flag and the level, and last of all
/// the target.
pub proof fn lemma_flac_follows_sample_rate(output: StreamOutput, level: u8)
    requires
        output.codec == AudioCodec::Flac(Flac { compression_level: Some(level) }),
    ensures
        ({
            let args = output.args();
            let at = codec_offset(output);
            &&& 2 <= at && at + 4 < args.len()
            &&& args[0] == SAMPLE_RATE_OPT@
            &&& args[1] == decimal(output.sample_rate as nat)
            &&& args[at] == CODEC_OPT@
            &&& args[at + 1] == FLAC_CODEC@
            &&& args[at + 2] == COMPRESSION_LEVEL_OPT@
            &&& args[at + 3] == decimal(level as nat)
            &&& args[args.len() - 1] == output.output@
        }),
{
}

/// The tokens of a configuration are those of its general part, then those
/// of its input, then those of its output, each part whole and in its own
/// order.
pub proof fn lemma_sections_in_order(config: StreamConfig)
    ensures
        ({
            let args = config.args();
            let general = config.general.args();
            let input = config.input.args();
            let output = config.output.args();
            &&& args.len() == general.len() + input.len() + output.len()
            &&& args.subrange(0, general.len() as int) == general
            &&& args.subrange(general.len() as int, (general.len() + input.len()) as int) == input
            &&& args.subrange((general.len() + input.len()) as int, args.len() as int) == output
        }),
{
    let args = config.args();
    let general = config.general.args();
    let input = config.input.args();
    let output = config.output.args();
    assert(args.subrange(0, general.len() as int) =~= general);
    assert(args.subrange(general.len() as int, (general.len() + input.len()) as int) =~= input);
    assert(args.subrange((general.len() + input.len()) as int, args.len() as int) =~= output);
}

// Pico CSS
pub const PICO_CSS_CDN_BASE: &'static str = "https://cdn.jsdelivr.net/npm/@picocss/pico@2/css/";

pub const PICO_CSS_PREFIX: &'static str = "pico.classless.";

pub const PICO_CSS_SUFFIX: &'static str = ".min.css";

/// The accent colours of the Pico CSS classless stylesheets.
#[derive(Clone, Copy, Debug, PartialEq, Eq, Structural)]
pub enum PicoCssColour {
    Amber,
    Blue,
    Cyan,
    Fuchsia,
    Green,
    Grey,
    Indigo,
    Jade,
    Lime,
    Orange,
    Pink,
    Pumpkin,
    Purple,
    Red,
    Sand,
    Slate,
    Violet,
    Yellow,
    Zinc,
}

impl PicoCssColour {
    /// The name of the colour: its variant's name in lower case.
    pub open spec fn name(self) -> Seq<char> {
        match self {
            PicoCssColour::Amber => "amber"@,
            PicoCssColour::Blue => "blue"@,
            PicoCssColour::Cyan => "cyan"@,
            PicoCssColour::Fuchsia => "fuchsia"@,
            PicoCssColour::Green => "green"@,
            PicoCssColour::Grey => "grey"@,
            PicoCssColour::Indigo => "indigo"@,
            PicoCssColour::Jade => "jade"@,
            PicoCssColour::Lime => "lime"@,
            PicoCssColour::Orange => "orange"@,
            PicoCssColour::Pink => "pink"@,
            PicoCssColour::Pumpkin => "pumpkin"@,
            PicoCssColour::Purple => "purple"@,
            PicoCssColour::Red => "red"@,
            PicoCssColour::Sand => "sand"@,
            PicoCssColour::Slate => "slate"@,
            PicoCssColour::Violet => "violet"@,
            PicoCssColour::Yellow => "yellow"@,
            PicoCssColour::Zinc => "zinc"@,
        }
    }

    /// The name of the colour, in lower case.
    pub fn as_ref(&self) -> (name: &'static str)
        ensures
            name@ == self.name(),
    {
        match self {
            PicoCssColour::Amber => "amber",
            PicoCssColour::Blue => "blue",
            PicoCssColour::Cyan => "cyan",
            PicoCssColour::Fuchsia => "fuchsia",
            PicoCssColour::Green => "green",
            PicoCssColour::Grey => "grey",
            PicoCssColour::Indigo => "indigo",
            PicoCssColour::Jade => "jade",
            PicoCssColour::Lime => "lime",
            PicoCssColour::Orange => "orange",
            PicoCssColour::Pink => "pink",
            PicoCssColour::Pumpkin => "pumpkin",
            PicoCssColour::Purple => "purple",
            PicoCssColour::Red => "red",
            PicoCssColour::Sand => "sand",
            PicoCssColour::Slate => "slate",
            PicoCssColour::Violet => "violet",
            PicoCssColour::Yellow => "yellow",
            PicoCssColour::Zinc => "zinc",
        }
    }

    /// Reads a colour from its lower-case name. Any other string is refused.
    pub fn from_str(s: &str) -> (colour: Result<PicoCssColour, ParseError>)
        ensures
            match colour {
                Ok(c) => c.name() == s@,
                Err(e) => e == ParseError::VariantNotFound && forall|c: PicoCssColour|
                    c.name() != s@,
            },
    {
        if str_equal(s, "amber") {
            Ok(PicoCssColour::Amber)
        } else if str_equal(s, "blue") {
            Ok(PicoCssColour::Blue)
        } else if str_equal(s, "cyan") {
            Ok(PicoCssColour::Cyan)
        } else if str_equal(s, "fuchsia") {
            Ok(PicoCssColour::Fuchsia)
        } else if str_equal(s, "green") {
            Ok(PicoCssColour::Green)
        } else if str_equal(s, "grey") {
            Ok(PicoCssColour::Grey)
        } else if str_equal(s, "indigo") {
            Ok(PicoCssColour::Indigo)
        } else if str_equal(s, "jade") {
            Ok(PicoCssColour::Jade)
        } else if str_equal(s, "lime") {
            Ok(PicoCssColour::Lime)
        } else if str_equal(s, "orange") {
            Ok(PicoCssColour::Orange)
        } else if str_equal(s, "pink") {
            Ok(PicoCssColour::Pink)
        } else if str_equal(s, "pumpkin") {
            Ok(PicoCssColour::Pumpkin)
        } else if str_equal(s, "purple") {
            Ok(PicoCssColour::Purple)
        } else if str_equal(s, "red") {
            Ok(PicoCssColour::Red)
        } else if str_equal(s, "sand") {
            Ok(PicoCssColour::Sand)
        } else if str_equal(s, "slate") {
            Ok(PicoCssColour::Slate)
        } else if str_equal(s, "violet") {
            Ok(PicoCssColour::Violet)
        } else if str_equal(s, "yellow") {
            Ok(PicoCssColour::Yellow)
        } else if str_equal(s, "zinc") {
            Ok(PicoCssColour::Zinc)
        } else {
            Err(ParseError::VariantNotFound)
        }
    }

    /// The file name of the stylesheet of this colour.
    pub open spec fn pico_css_name(self) -> Seq<char> {
        PICO_CSS_PREFIX@ + self.name() + PICO_CSS_SUFFIX@
    }

    /// The file name of the stylesheet of this colour:
    /// `pico.classless.`, the colour's name, `.min.css`.
    pub fn get_pico_css_name(&self) -> (file: String)
        ensures
            file@ == self.pico_css_name(),
    {
        String::from_str(PICO_CSS_PREFIX).concat(self.as_ref()).concat(PICO_CSS_SUFFIX)
    }
}

/// No two colours share a name, so a name names at most one colour.
pub proof fn lemma_colour_names_distinct(a: PicoCssColour, b: PicoCssColour)
    requires
        a.name() == b.name(),
    ensures
        a == b,
{
    reveal_strlit("amber");
    reveal_strlit("blue");
    reveal_strlit("cyan");
    reveal_strlit("fuchsia");
    reveal_strlit("green");
    reveal_strlit("grey");
    reveal_strlit("indigo");
    reveal_strlit("jade");
    reveal_strlit("lime");
    reveal_strlit("orange");
    reveal_strlit("pink");
    reveal_strlit("pumpkin");
    reveal_strlit("purple");
    reveal_strlit("red");
    reveal_strlit("sand");
    reveal_strlit("slate");
    reveal_strlit("violet");
    reveal_strlit("yellow");
    reveal_strlit("zinc");
    let x = a.name();
    let y = b.name();
    assert(x.len() == y.len());
    assert(x[0] == y[0]);
    assert(x[1] == y[1]);
    assert(x[2] == y[2]);
}

// Control surface
pub const DEFAULT_PORT: u16 = 8080;

pub const DEFAULT_LISTEN_ADDRESS: &'static str = "0.0.0.0";

/// Where the control surface listens and how it looks.
#[derive(Debug)]
pub struct UiConfig {
    port: u16,
    listen_address: String,
    pico_css_color: PicoCssColour,
}

impl UiConfig {
    /// A control-surface configuration with the fields given.
    pub fn new(port: u16, listen_address: String, pico_css_color: PicoCssColour) -> (ui: UiConfig)
        ensures
            ui.spec_port() == port,
            ui.spec_listen_address() == listen_address@,
            ui.spec_colour() == pico_css_color,
    {
        UiConfig { port, listen_address, pico_css_color }
    }

    /// The port of the control surface.
    pub closed spec fn spec_port(&self) -> u16 {
        self.port
    }

    /// The address that the control surface binds.
    pub closed spec fn spec_listen_address(&self) -> Seq<char> {
        self.listen_address@
    }

    /// The accent colour of the control surface.
    pub closed spec fn spec_colour(&self) -> PicoCssColour {
        self.pico_css_color
    }

    /// The address of the stylesheet: the CDN's base, then the file name of
    /// the colour's stylesheet.
    pub open spec fn stylesheet_href(&self) -> Seq<char> {
        PICO_CSS_CDN_BASE@ + self.spec_colour().pico_css_name()
    }

    /// The address of the stylesheet of the configured colour.
    pub fn get_stylesheet_href(&self) -> (href: String)
        ensures
            href@ == self.stylesheet_href(),
    {
        let file = self.pico_css_color.get_pico_css_name();
        String::from_str(PICO_CSS_CDN_BASE).concat(file.as_str())
    }

    /// The port of the control surface.
    pub fn port(&self) -> (port: u16)
        ensures
            port == self.spec_port(),
    {
        self.port
    }

    /// The address that the control surface binds.
    pub fn listen_address(&self) -> (address: &str)
        ensures
            address@ == self.spec_listen_address(),
    {
        self.listen_address.as_str()
    }

    /// The accent colour of the control surface.
    pub fn pico_css_color(&self) -> (colour: PicoCssColour)
        ensures
            colour == self.spec_colour(),
    {
        self.pico_css_color
    }
}

impl Default for UiConfig {
    /// Port 8080 on every interface, in indigo.
    fn default() -> (ui: UiConfig)
        ensures
            ui.spec_port() == DEFAULT_PORT,
            ui.spec_listen_address() == DEFAULT_LISTEN_ADDRESS@,
            ui.spec_colour() == PicoCssColour::Indigo,
    {
        UiConfig {
            port: DEFAULT_PORT,
            listen_address: String::from_str(DEFAULT_LISTEN_ADDRESS),
            pico_css_color: PicoCssColour::Indigo,
        }
    }
}

/// The configuration of the program: the encoder's invocation and the control
/// surface.
#[derive(Debug)]
pub struct Configuration {
    ffmpeg: StreamConfig,
    ui: UiConfig,
}

impl Configuration {
    /// A configuration of the two parts given.
    pub fn new(ffmpeg: StreamConfig, ui: UiConfig) -> (config: Configuration)
        ensures
            config.spec_ffmpeg() == ffmpeg,
            config.spec_ui() == ui,
    {
        Configuration { ffmpeg, ui }
    }

    /// The encoder's part.
    pub closed spec fn spec_ffmpeg(&self) -> StreamConfig {
        self.ffmpeg
    }

    /// The control surface's part.
    pub closed spec fn spec_ui(&self) -> UiConfig {
        self.ui
    }

    /// The encoder's part.
    pub fn ffmpeg(&self) -> (ffmpeg: &StreamConfig)
        ensures
            *ffmpeg == self.spec_ffmpeg(),
    {
        &self.ffmpeg
    }

    /// The control surface's part.
    pub fn ui(&self) -> (ui: &UiConfig)
        ensures
            *ui == self.spec_ui(),
    {
        &self.ui
    }
}

} // verus!
