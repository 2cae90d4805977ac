//! Spinner animations for indeterminate progress: a catalogue of frame
//! sets, looked up by enum variant or by name.

use vstd::prelude::*;

verus! {

use crate::style::{Color, Style};
use crate::text::Span;

/// A spinner definition: its frames and the interval between them.
pub struct SpinnerDef {
    /// The animation frames, in order
    pub frames: Vec<&'static str>,
    /// Milliseconds between frames
    pub interval_ms: u64,
}

/// Spinner animation style.
#[derive(Debug, Clone, Copy, PartialEq, Eq, Default, Structural)]
pub enum SpinnerStyle {
    /// Braille dots animation (default)
    #[default]
    Dots,
    /// The `dots2` animation
    Dots2,
    /// The `dots3` animation
    Dots3,
    /// The `dots4` animation
    Dots4,
    /// The `dots5` animation
    Dots5,
    /// The `dots6` animation
    Dots6,
    /// The `dots7` animation
    Dots7,
    /// The `dots8` animation
    Dots8,
    /// The `dots9` animation
    Dots9,
    /// The `dots10` animation
    Dots10,
    /// The `dots11` animation
    Dots11,
    /// The `dots12` animation
    Dots12,
    /// The `dots13` animation
    Dots13,
    /// The `dots14` animation
    Dots14,
    /// The `dotscircle` animation
    DotsCircle,
    /// The `sand` animation
    Sand,
    /// The `bounce` animation
    Bounce,
    /// The `line` animation
    Line,
    /// The `line2` animation
    Line2,
    /// The `pipe` animation
    Pipe,
    /// The `rollingline` animation
    RollingLine,
    /// The `simpledots` animation
    SimpleDots,
    /// The `simpledotsscrolling` animation
    SimpleDotsScrolling,
    /// The `star` animation
    Star,
    /// The `star2` animation
    Star2,
    /// The `arc` animation
    Arc,
    /// The `circle` animation
    Circle,
    /// The `circlehalves` animation
    CircleHalves,
    /// The `circlequarters` animation
    CircleQuarters,
    /// The `squarecorners` animation
    SquareCorners,
    /// The `triangle` animation
    Triangle,
    /// The `binary` animation
    Binary,
    /// The `squish` animation
    Squish,
    /// The `flip` animation
    Flip,
    /// The `hamburger` animation
    Hamburger,
    /// The `boxbounce` animation
    BoxBounce,
    /// The `boxbounce2` animation
    BoxBounce2,
    /// The `noise` animation
    Noise,
    /// The `growvertical` animation
    GrowVertical,
    /// The `growhorizontal` animation
    GrowHorizontal,
    /// The `balloon` animation
    Balloon,
    /// The `balloon2` animation
    Balloon2,
    /// The `toggle` animation
    Toggle,
    /// The `toggle2` animation
    Toggle2,
    /// The `toggle3` animation
    Toggle3,
    /// The `toggle4` animation
    Toggle4,
    /// The `toggle5` animation
    Toggle5,
    /// The `toggle6` animation
    Toggle6,
    /// The `toggle7` animation
    Toggle7,
    /// The `toggle8` animation
    Toggle8,
    /// The `toggle9` animation
    Toggle9,
    /// The `toggle10` animation
    Toggle10,
    /// The `toggle11` animation
    Toggle11,
    /// The `toggle12` animation
    Toggle12,
    /// The `toggle13` animation
    Toggle13,
    /// The `arrow` animation
    Arrow,
    /// The `arrow2` animation
    Arrow2,
    /// The `arrow3` animation
    Arrow3,
    /// The `bouncingbar` animation
    BouncingBar,
    /// The `bouncingball` animation
    BouncingBall,
    /// The `pong` animation
    Pong,
    /// The `shark` animation
    Shark,
    /// The `betawave` animation
    BetaWave,
    /// The `aesthetic` animation
    Aesthetic,
    /// The `material` animation
    Material,
    /// The `clock` animation
    Clock,
    /// The `moon` animation
    Moon,
    /// The `earth` animation
    Earth,
    /// The `hearts` animation
    Hearts,
    /// The `smiley` animation
    Smiley,
    /// The `monkey` animation
    Monkey,
    /// The `runner` animation
    Runner,
    /// The `weather` animation
    Weather,
    /// The `christmas` animation
    Christmas,
    /// The `grenade` animation
    Grenade,
    /// The `fingerdance` animation
    FingerDance,
    /// The `speaker` animation
    Speaker,
    /// The `orangepulse` animation
    OrangePulse,
    /// The `bluepulse` animation
    BluePulse,
    /// The `orangebluepulse` animation
    OrangeBluePulse,
    /// The `timetravel` animation
    TimeTravel,
    /// The `mindblown` animation
    Mindblown,
    /// The `dqpb` animation
    Dqpb,
    /// The `point` animation
    Point,
    /// The `layer` animation
    Layer,
}

impl SpinnerStyle {
    /// The spinner definition: its frames and interval. Every style has at
    /// least one frame and a positive interval.
    pub fn def(&self) -> (d: SpinnerDef)
        ensures
            d.frames@.len() > 0,
            d.interval_ms > 0,
            *self is Dots ==> d.frames@.len() == 10 && d.frames@[0]@ == "\u{280b}"@,
    {
        match *self {
            SpinnerStyle::Dots => {
                let d = SpinnerDef { frames: vec!["⠋", "⠙", "⠹", "⠸", "⠼", "⠴", "⠦", "⠧", "⠇", "⠏"], interval_ms: 80 };
                proof {
                    assert(d.frames@[0]@ =~= "\u{280b}"@);
                }
                d
            },
            SpinnerStyle::Dots2 => {
                let d = SpinnerDef { frames: vec!["⣾", "⣽", "⣻", "⢿", "⡿", "⣟", "⣯", "⣷"], interval_ms: 80 };
                d
            },
            SpinnerStyle::Dots3 => {
                let d = SpinnerDef { frames: vec!["⠋", "⠙", "⠚", "⠞", "⠖", "⠦", "⠴", "⠲", "⠳", "⠓"], interval_ms: 80 };
                d
            },
            SpinnerStyle::Dots4 => {
                let d = SpinnerDef { frames: vec!["⠄", "⠆", "⠇", "⠋", "⠙", "⠸", "⠰", "⠠", "⠰", "⠸", "⠙", "⠋", "⠇", "⠆"], interval_ms: 80 };
                d
            },
            SpinnerStyle::Dots5 => {
                let d = SpinnerDef { frames: vec!["⠋", "⠙", "⠚", "⠒", "⠂", "⠂", "⠒", "⠲", "⠴", "⠦", "⠖", "⠒", "⠐", "⠐", "⠒", "⠓", "⠋"], interval_ms: 80 };
                d
            },
            SpinnerStyle::Dots6 => {
                let d = SpinnerDef { frames: vec!["⠁", "⠉", "⠙", "⠚", "⠒", "⠂", "⠂", "⠒", "⠲", "⠴", "⠤", "⠄", "⠄", "⠤", "⠴", "⠲", "⠒", "⠂", "⠂", "⠒", "⠚", "⠙", "⠉", "⠁"], interval_ms: 80 };
                d
            },
            SpinnerStyle::Dots7 => {
                let d = SpinnerDef { frames: vec!["⠈", "⠉", "⠋", "⠓", "⠒", "⠐", "⠐", "⠒", "⠖", "⠦", "⠤", "⠠", "⠠", "⠤", "⠦", "⠖", "⠒", "⠐", "⠐", "⠒", "⠓", "⠋", "⠉", "⠈"], interval_ms: 80 };
                d
            },
            SpinnerStyle::Dots8 => {
                let d = SpinnerDef { frames: vec!["⠁", "⠁", "⠉", "⠙", "⠚", "⠒", "⠂", "⠂", "⠒", "⠲", "⠴", "⠤", "⠄", "⠄", "⠤", "⠠", "⠠", "⠤", "⠦", "⠖", "⠒", "⠐", "⠐", "⠒", "⠓", "⠋", "⠉", "⠈", "⠈"], interval_ms: 80 };
                d
            },
            SpinnerStyle::Dots9 => {
                let d = SpinnerDef { frames: vec!["⢹", "⢺", "⢼", "⣸", "⣇", "⡧", "⡗", "⡏"], interval_ms: 80 };
                d
            },
            SpinnerStyle::Dots10 => {
                let d = SpinnerDef { frames: vec!["⢄", "⢂", "⢁", "⡁", "⡈", "⡐", "⡠"], interval_ms: 80 };
                d
            },
            SpinnerStyle::Dots11 => {
                let d = SpinnerDef { frames: vec!["⠁", "⠂", "⠄", "⡀", "⢀", "⠠", "⠐", "⠈"], interval_ms: 100 };
                d
            },
            SpinnerStyle::Dots12 => {
                let d = SpinnerDef { frames: vec!["⢀⠀", "⡀⠀", "⠄⠀", "⢂⠀", "⡂⠀", "⠅⠀", "⢃⠀", "⡃⠀", "⠍⠀", "⢋⠀", "⡋⠀", "⠍⠁", "⢋⠁", "⡋⠁", "⠍⠉", "⠋⠉", "⠋⠉", "⠉⠙", "⠉⠙", "⠉⠩", "⠈⢙", "⠈⡙", "⢈⠩", "⡀⢙", "⠄⡙", "⢂⠩", "⡂⢘", "⠅⡘", "⢃⠨", "⡃⢐", "⠍⡐", "⢋⠠", "⡋⢀", "⠍⡁", "⢋⠁", "⡋⠁", "⠍⠉", "⠋⠉", "⠋⠉", "⠉⠙", "⠉⠙", "⠉⠩", "⠈⢙", "⠈⡙", "⠈⠩", "⠀⢙", "⠀⡙", "⠀⠩", "⠀⢘", "⠀⡘", "⠀⠨", "⠀⢐", "⠀⡐", "⠀⠠", "⠀⢀", "⠀⡀"], interval_ms: 80 };
                d
            },
            SpinnerStyle::Dots13 => {
                let d = SpinnerDef { frames: vec!["⣼", "⣹", "⢻", "⠿", "⡟", "⣏", "⣧", "⣶"], interval_ms: 80 };
                d
            },
            SpinnerStyle::Dots14 => {
                let d = SpinnerDef { frames: vec!["⠉⠉", "⠈⠙", "⠀⠹", "⠀⢸", "⠀⣰", "⢀⣠", "⣀⣀", "⣄⡀", "⣆⠀", "⡇⠀", "⠏⠀", "⠋⠁"], interval_ms: 80 };
                d
            },
            SpinnerStyle::DotsCircle => {
                let d = SpinnerDef { frames: vec!["⢎", "⠈", "⠑", "⠢", "⠜", "⢄", "⡠", "⡪"], interval_ms: 80 };
                d
            },
            SpinnerStyle::Sand => {
                let d = SpinnerDef { frames: vec!["⠁", "⠂", "⠄", "⡀", "⡈", "⡐", "⡠", "⣀", "⣁", "⣂", "⣄", "⣌", "⣔", "⣤", "⣥", "⣦", "⣮", "⣶", "⣷", "⣿", "⡿", "⠿", "⢟", "⠟", "⡛", "⠛", "⠫", "⢋", "⠋", "⠍", "⡉", "⠉", "⠑", "⠡", "⢁"], interval_ms: 80 };
                d
            },
            SpinnerStyle::Bounce => {
                let d = SpinnerDef { frames: vec!["⠁", "⠂", "⠄", "⠂"], interval_ms: 120 };
                d
            },
            SpinnerStyle::Line => {
                let d = SpinnerDef { frames: vec!["-", "\\\\", "|", "/"], interval_ms: 130 };
                d
            },
            SpinnerStyle::Line2 => {
                let d = SpinnerDef { frames: vec!["⠂", "-", "–", "—", "–", "-"], interval_ms: 100 };
                d
            },
            SpinnerStyle::Pipe => {
                let d = SpinnerDef { frames: vec!["┤", "┘", "┴", "└", "├", "┌", "┬", "┐"], interval_ms: 100 };
                d
            },
            SpinnerStyle::RollingLine => {
                let d = SpinnerDef { frames: vec!["-", "\\\\", "|", "/", "-", "\\\\", "|", "/"], interval_ms: 100 };
                d
            },
            SpinnerStyle::SimpleDots => {
                let d = SpinnerDef { frames: vec![".  ", ".. ", "...", "   "], interval_ms: 400 };
                d
            },
            SpinnerStyle::SimpleDotsScrolling => {
                let d = SpinnerDef { frames: vec![".  ", ".. ", "...", " ..", "  .", "   "], interval_ms: 200 };
                d
            },
            SpinnerStyle::Star => {
                let d = SpinnerDef { frames: vec!["✶", "✸", "✹", "✺", "✹", "✷"], interval_ms: 70 };
                d
            },
            SpinnerStyle::Star2 => {
                let d = SpinnerDef { frames: vec!["+", "x", "*"], interval_ms: 80 };
                d
            },
            SpinnerStyle::Arc => {
                let d = SpinnerDef { frames: vec!["◜", "◠", "◝", "◞", "◡", "◟"], interval_ms: 100 };
                d
            },
            SpinnerStyle::Circle => {
                let d = SpinnerDef { frames: vec!["◡", "⊙", "◠"], interval_ms: 120 };
                d
            },
            SpinnerStyle::CircleHalves => {
                let d = SpinnerDef { frames: vec!["◐", "◓", "◑", "◒"], interval_ms: 50 };
                d
            },
            SpinnerStyle::CircleQuarters => {
                let d = SpinnerDef { frames: vec!["◴", "◷", "◶", "◵"], interval_ms: 120 };
                d
            },
            SpinnerStyle::SquareCorners => {
                let d = SpinnerDef { frames: vec!["◰", "◳", "◲", "◱"], interval_ms: 180 };
                d
            },
            SpinnerStyle::Triangle => {
                let d = SpinnerDef { frames: vec!["◢", "◣", "◤", "◥"], interval_ms: 50 };
                d
            },
            SpinnerStyle::Binary => {
                let d = SpinnerDef { frames: vec!["010010", "001100", "100101", "111010", "111101", "010111", "101011", "111000", "110011", "110101"], interval_ms: 80 };
                d
            },
            SpinnerStyle::Squish => {
                let d = SpinnerDef { frames: vec!["╫", "╪"], interval_ms: 100 };
                d
            },
            SpinnerStyle::Flip => {
                let d = SpinnerDef { frames: vec!["_", "_", "_", "-", "`", "`", "'", "´", "-", "_", "_", "_"], interval_ms: 70 };
                d
            },
            SpinnerStyle::Hamburger => {
                let d = SpinnerDef { frames: vec!["☱", "☲", "☴"], interval_ms: 100 };
                d
            },
            SpinnerStyle::BoxBounce => {
                let d = SpinnerDef { frames: vec!["▖", "▘", "▝", "▗"], interval_ms: 120 };
                d
            },
            SpinnerStyle::BoxBounce2 => {
                let d = SpinnerDef { frames: vec!["▌", "▀", "▐", "▄"], interval_ms: 100 };
                d
            },
            SpinnerStyle::Noise => {
                let d = SpinnerDef { frames: vec!["▓", "▒", "░"], interval_ms: 100 };
                d
            },
            SpinnerStyle::GrowVertical => {
                let d = SpinnerDef { frames: vec!["▁", "▃", "▄", "▅", "▆", "▇", "▆", "▅", "▄", "▃"], interval_ms: 120 };
                d
            },
            SpinnerStyle::GrowHorizontal => {
                let d = SpinnerDef { frames: vec!["▏", "▎", "▍", "▌", "▋", "▊", "▉", "▊", "▋", "▌", "▍", "▎"], interval_ms: 120 };
                d
            },
            SpinnerStyle::Balloon => {
                let d = SpinnerDef { frames: vec![" ", ".", "o", "O", "@", "*", " "], interval_ms: 140 };
                d
            },
            SpinnerStyle::Balloon2 => {
                let d = SpinnerDef { frames: vec![".", "o", "O", "°", "O", "o", "."], interval_ms: 120 };
                d
            },
            SpinnerStyle::Toggle => {
                let d = SpinnerDef { frames: vec!["⊶", "⊷"], interval_ms: 250 };
                d
            },
            SpinnerStyle::Toggle2 => {
                let d = SpinnerDef { frames: vec!["▫", "▪"], interval_ms: 80 };
                d
            },
            SpinnerStyle::Toggle3 => {
                let d = SpinnerDef { frames: vec!["□", "■"], interval_ms: 120 };
                d
            },
            SpinnerStyle::Toggle4 => {
                let d = SpinnerDef { frames: vec!["■", "□", "▪", "▫"], interval_ms: 100 };
                d
            },
            SpinnerStyle::Toggle5 => {
                let d = SpinnerDef { frames: vec!["▮", "▯"], interval_ms: 100 };
                d
            },
            SpinnerStyle::Toggle6 => {
                let d = SpinnerDef { frames: vec!["ဝ", "၀"], interval_ms: 300 };
                d
            },
            SpinnerStyle::Toggle7 => {
                let d = SpinnerDef { frames: vec!["⦾", "⦿"], interval_ms: 80 };
                d
            },
            SpinnerStyle::Toggle8 => {
                let d = SpinnerDef { frames: vec!["◍", "◌"], interval_ms: 100 };
                d
            },
            SpinnerStyle::Toggle9 => {
                let d = SpinnerDef { frames: vec!["◉", "◎"], interval_ms: 100 };
                d
            },
            SpinnerStyle::Toggle10 => {
                let d = SpinnerDef { frames: vec!["㊂", "㊀", "㊁"], interval_ms: 100 };
                d
            },
            SpinnerStyle::Toggle11 => {
                let d = SpinnerDef { frames: vec!["⧇", "⧆"], interval_ms: 50 };
                d
            },
            SpinnerStyle::Toggle12 => {
                let d = SpinnerDef { frames: vec!["☗", "☖"], interval_ms: 120 };
                d
            },
            SpinnerStyle::Toggle13 => {
                let d = SpinnerDef { frames: vec!["=", "*", "-"], interval_ms: 80 };
                d
            },
            SpinnerStyle::Arrow => {
                let d = SpinnerDef { frames: vec!["←", "↖", "↑", "↗", "→", "↘", "↓", "↙"], interval_ms: 100 };
                d
            },
            SpinnerStyle::Arrow2 => {
                let d = SpinnerDef { frames: vec!["⬆️ ", "↗️ ", "➡️ ", "↘️ ", "⬇️ ", "↙️ ", "⬅️ ", "↖️ "], interval_ms: 80 };
                d
            },
            SpinnerStyle::Arrow3 => {
                let d = SpinnerDef { frames: vec!["▹▹▹▹▹", "▸▹▹▹▹", "▹▸▹▹▹", "▹▹▸▹▹", "▹▹▹▸▹", "▹▹▹▹▸"], interval_ms: 120 };
                d
            },
            SpinnerStyle::BouncingBar => {
                let d = SpinnerDef { frames: vec!["[    ]", "[=   ]", "[==  ]", "[=== ]", "[ ===]", "[  ==]", "[   =]", "[    ]", "[   =]", "[  ==]", "[ ===]", "[====]", "[=== ]", "[==  ]", "[=   ]"], interval_ms: 80 };
                d
            },
            SpinnerStyle::BouncingBall => {
                let d = SpinnerDef { frames: vec!["( ●    )", "(  ●   )", "(   ●  )", "(    ● )", "(     ●)", "(    ● )", "(   ●  )", "(  ●   )", "( ●    )", "(●     )"], interval_ms: 80 };
                d
            },
            SpinnerStyle::Pong => {
                let d = SpinnerDef { frames: vec!["▐⠂       ▌", "▐⠈       ▌", "▐ ⠂      ▌", "▐ ⠠      ▌", "▐  ⡀     ▌", "▐  ⠠     ▌", "▐   ⠂    ▌", "▐   ⠈    ▌", "▐    ⠂   ▌", "▐    ⠠   ▌", "▐     ⡀  ▌", "▐     ⠠  ▌", "▐      ⠂ ▌", "▐      ⠈ ▌", "▐       ⠂▌"], interval_ms: 80 };
                d
            },
            SpinnerStyle::Shark => {
                let d = SpinnerDef { frames: vec!["▐|\\\\____________▌", "▐_|\\\\___________▌", "▐__|\\\\__________▌", "▐___|\\\\_________▌", "▐____|\\\\________▌", "▐_____|\\\\_______▌", "▐______|\\\\______▌", "▐_______|\\\\_____▌", "▐________|\\\\____▌", "▐_________|\\\\___▌", "▐__________|\\\\__▌", "▐___________|\\\\_▌", "▐____________|\\\\▌"], interval_ms: 120 };
                d
            },
            SpinnerStyle::BetaWave => {
                let d = SpinnerDef { frames: vec!["ρββββββ", "βρβββββ", "ββρββββ", "βββρβββ", "ββββρββ", "βββββρβ", "ββββββρ"], interval_ms: 80 };
                d
            },
            SpinnerStyle::Aesthetic => {
                let d = SpinnerDef { frames: vec!["▰▱▱▱▱▱▱", "▰▰▱▱▱▱▱", "▰▰▰▱▱▱▱", "▰▰▰▰▱▱▱", "▰▰▰▰▰▱▱", "▰▰▰▰▰▰▱", "▰▰▰▰▰▰▰", "▰▱▱▱▱▱▱"], interval_ms: 80 };
                d
            },
            SpinnerStyle::Material => {
                let d = SpinnerDef { frames: vec!["█▁▁▁▁▁▁▁▁▁", "██▁▁▁▁▁▁▁▁", "███▁▁▁▁▁▁▁", "████▁▁▁▁▁▁", "██████▁▁▁▁", "███████▁▁▁", "████████▁▁", "█████████▁", "██████████", "▁█████████", "▁▁████████", "▁▁▁▁██████", "▁▁▁▁▁▁████", "▁▁▁▁▁▁▁███", "▁▁▁▁▁▁▁▁██", "▁▁▁▁▁▁▁▁▁█", "▁▁▁▁▁▁▁▁▁▁"], interval_ms: 17 };
                d
            },
            SpinnerStyle::Clock => {
                let d = SpinnerDef { frames: vec!["🕛 ", "🕐 ", "🕑 ", "🕒 ", "🕓 ", "🕔 ", "🕕 ", "🕖 ", "🕗 ", "🕘 ", "🕙 ", "🕚 "], interval_ms: 100 };
                d
            },
            SpinnerStyle::Moon => {
                let d = SpinnerDef { frames: vec!["🌑 ", "🌒 ", "🌓 ", "🌔 ", "🌕 ", "🌖 ", "🌗 ", "🌘 "], interval_ms: 80 };
                d
            },
            SpinnerStyle::Earth => {
                let d = SpinnerDef { frames: vec!["🌍 ", "🌎 ", "🌏 "], interval_ms: 180 };
                d
            },
            SpinnerStyle::Hearts => {
                let d = SpinnerDef { frames: vec!["💛 ", "💙 ", "💜 ", "💚 ", "❤️ "], interval_ms: 100 };
                d
            },
            SpinnerStyle::Smiley => {
                let d = SpinnerDef { frames: vec!["😄 ", "😝 "], interval_ms: 200 };
                d
            },
            SpinnerStyle::Monkey => {
                let d = SpinnerDef { frames: vec!["🙈 ", "🙈 ", "🙉 ", "🙊 "], interval_ms: 300 };
                d
            },
            SpinnerStyle::Runner => {
                let d = SpinnerDef { frames: vec!["🚶 ", "🏃 "], interval_ms: 140 };
                d
            },
            SpinnerStyle::Weather => {
                let d = SpinnerDef { frames: vec!["☀️ ", "☀️ ", "🌤 ", "⛅️ ", "🌥 ", "☁️ ", "🌧 ", "🌨 ", "🌧 ", "🌨 ", "⛈ ", "🌨 ", "🌧 ", "🌨 ", "☁️ ", "🌥 ", "⛅️ ", "🌤 ", "☀️ ", "☀️ "], interval_ms: 100 };
                d
            },
            SpinnerStyle::Christmas => {
                let d = SpinnerDef { frames: vec!["🌲", "🎄"], interval_ms: 400 };
                d
            },
            SpinnerStyle::Grenade => {
                let d = SpinnerDef { frames: vec!["،  ", "′  ", " ´ ", " ‾ ", "  ⸌", "  ⸊", "  |", "  ⁎", "  ⁕", " ෴ ", "  ⁓", "   ", "   ", "   "], interval_ms: 80 };
                d
            },
            SpinnerStyle::FingerDance => {
                let d = SpinnerDef { frames: vec!["🤘 ", "🤟 ", "🖖 ", "✋ ", "🤚 ", "👆 "], interval_ms: 160 };
                d
            },
            SpinnerStyle::Speaker => {
                let d = SpinnerDef { frames: vec!["🔈 ", "🔉 ", "🔊 ", "🔉 "], interval_ms: 160 };
                d
            },
            SpinnerStyle::OrangePulse => {
                let d = SpinnerDef { frames: vec!["🔸 ", "🔶 ", "🟠 ", "🟠 ", "🔶 "], interval_ms: 100 };
                d
            },
            SpinnerStyle::BluePulse => {
                let d = SpinnerDef { frames: vec!["🔹 ", "🔷 ", "🔵 ", "🔵 ", "🔷 "], interval_ms: 100 };
                d
            },
            SpinnerStyle::OrangeBluePulse => {
                let d = SpinnerDef { frames: vec!["🔸 ", "🔶 ", "🟠 ", "🟠 ", "🔶 ", "🔹 ", "🔷 ", "🔵 ", "🔵 ", "🔷 "], interval_ms: 100 };
                d
            },
            SpinnerStyle::TimeTravel => {
                let d = SpinnerDef { frames: vec!["🕛 ", "🕚 ", "🕙 ", "🕘 ", "🕗 ", "🕖 ", "🕕 ", "🕔 ", "🕓 ", "🕒 ", "🕑 ", "🕐 "], interval_ms: 100 };
                d
            },
            SpinnerStyle::Mindblown => {
                let d = SpinnerDef { frames: vec!["😐 ", "😐 ", "😮 ", "😮 ", "😦 ", "😦 ", "😧 ", "😧 ", "🤯 ", "💥 ", "✨ ", "　 ", "　 ", "　 "], interval_ms: 160 };
                d
            },
            SpinnerStyle::Dqpb => {
                let d = SpinnerDef { frames: vec!["d", "q", "p", "b"], interval_ms: 100 };
                d
            },
            SpinnerStyle::Point => {
                let d = SpinnerDef { frames: vec!["∙∙∙", "●∙∙", "∙●∙", "∙∙●", "∙∙∙"], interval_ms: 125 };
                d
            },
            SpinnerStyle::Layer => {
                let d = SpinnerDef { frames: vec!["-", "=", "≡"], interval_ms: 150 };
                d
            },
        }
    }

    /// The animation frames for this style.
    pub fn frames(&self) -> (r: Vec<&'static str>)
        ensures
            r@.len() > 0,
            *self is Dots ==> r@.len() == 10 && r@[0]@ == "\u{280b}"@,
    {
        self.def().frames
    }

    /// The interval between frames, in milliseconds; always positive.
    pub fn interval_ms(&self) -> (r: u64)
        ensures
            r > 0,
    {
        self.def().interval_ms
    }

    /// Look a style up by name: names are case-insensitive and underscores
    /// are ignored, so snake case and camel case both work.
    pub fn from_name(name: &str) -> (r: Option<SpinnerStyle>)
        ensures
            r == spinner_for_key(spinner_key(crate::chars::lower(name@))),
    {
        let chars = crate::chars::str_chars(name);
        let lowered = crate::chars::lower_chars(&chars);
        let mut key: Vec<char> = Vec::new();
        let mut i: usize = 0;
        proof {
            assert(lowered@.skip(0) =~= lowered@);
            assert(key@ + spinner_key(lowered@) =~= spinner_key(lowered@));
        }
        while i < lowered.len()
            invariant
                i <= lowered@.len(),
                lowered@ == crate::chars::lower(name@),
                key@ + spinner_key(lowered@.skip(i as int)) == spinner_key(lowered@),
            decreases lowered@.len() - i,
        {
            let ghost rest = lowered@.skip(i as int);
            let ghost key0 = key@;
            proof {
                assert(rest[0] == lowered@[i as int]);
                assert(rest.drop_first() =~= lowered@.skip(i + 1));
            }
            if lowered[i] != '_' {
                key.push(lowered[i]);
                proof {
                    assert(key@ =~= key0 + seq![lowered@[i as int]]);
                    assert((key0 + seq![lowered@[i as int]]) + spinner_key(lowered@.skip(i + 1))
                        =~= key0 + (seq![lowered@[i as int]] + spinner_key(lowered@.skip(i + 1))));
                }
            }
            i = i + 1;
        }
        proof {
            assert(lowered@.skip(lowered@.len() as int) =~= Seq::<char>::empty());
            assert(key@ + Seq::<char>::empty() =~= key@);
        }
        if crate::chars::chars_eq_str(&key, "dots") {
            Some(SpinnerStyle::Dots)
        } else if crate::chars::chars_eq_str(&key, "dots2") {
            Some(SpinnerStyle::Dots2)
        } else if crate::chars::chars_eq_str(&key, "dots3") {
            Some(SpinnerStyle::Dots3)
        } else if crate::chars::chars_eq_str(&key, "dots4") {
            Some(SpinnerStyle::Dots4)
        } else if crate::chars::chars_eq_str(&key, "dots5") {
            Some(SpinnerStyle::Dots5)
        } else if crate::chars::chars_eq_str(&key, "dots6") {
            Some(SpinnerStyle::Dots6)
        } else if crate::chars::chars_eq_str(&key, "dots7") {
            Some(SpinnerStyle::Dots7)
        } else if crate::chars::chars_eq_str(&key, "dots8") {
            Some(SpinnerStyle::Dots8)
        } else if crate::chars::chars_eq_str(&key, "dots9") {
            Some(SpinnerStyle::Dots9)
        } else if crate::chars::chars_eq_str(&key, "dots10") {
            Some(SpinnerStyle::Dots10)
        } else if crate::chars::chars_eq_str(&key, "dots11") {
            Some(SpinnerStyle::Dots11)
        } else if crate::chars::chars_eq_str(&key, "dots12") {
            Some(SpinnerStyle::Dots12)
        } else if crate::chars::chars_eq_str(&key, "dots13") {
            Some(SpinnerStyle::Dots13)
        } else if crate::chars::chars_eq_str(&key, "dots14") {
            Some(SpinnerStyle::Dots14)
        } else if crate::chars::chars_eq_str(&key, "dotscircle") {
            Some(SpinnerStyle::DotsCircle)
        } else if crate::chars::chars_eq_str(&key, "sand") {
            Some(SpinnerStyle::Sand)
        } else if crate::chars::chars_eq_str(&key, "bounce") {
            Some(SpinnerStyle::Bounce)
        } else if crate::chars::chars_eq_str(&key, "line") {
            Some(SpinnerStyle::Line)
        } else if crate::chars::chars_eq_str(&key, "line2") {
            Some(SpinnerStyle::Line2)
        } else if crate::chars::chars_eq_str(&key, "pipe") {
            Some(SpinnerStyle::Pipe)
        } else if crate::chars::chars_eq_str(&key, "rollingline") {
            Some(SpinnerStyle::RollingLine)
        } else if crate::chars::chars_eq_str(&key, "simpledots") {
            Some(SpinnerStyle::SimpleDots)
        } else if crate::chars::chars_eq_str(&key, "simpledotsscrolling") {
            Some(SpinnerStyle::SimpleDotsScrolling)
        } else if crate::chars::chars_eq_str(&key, "star") {
            Some(SpinnerStyle::Star)
        } else if crate::chars::chars_eq_str(&key, "star2") {
            Some(SpinnerStyle::Star2)
        } else if crate::chars::chars_eq_str(&key, "arc") {
            Some(SpinnerStyle::Arc)
        } else if crate::chars::chars_eq_str(&key, "circle") {
            Some(SpinnerStyle::Circle)
        } else if crate::chars::chars_eq_str(&key, "circlehalves") {
            Some(SpinnerStyle::CircleHalves)
        } else if crate::chars::chars_eq_str(&key, "circlequarters") {
            Some(SpinnerStyle::CircleQuarters)
        } else if crate::chars::chars_eq_str(&key, "squarecorners") {
            Some(SpinnerStyle::SquareCorners)
        } else if crate::chars::chars_eq_str(&key, "triangle") {
            Some(SpinnerStyle::Triangle)
        } else if crate::chars::chars_eq_str(&key, "binary") {
            Some(SpinnerStyle::Binary)
        } else if crate::chars::chars_eq_str(&key, "squish") {
            Some(SpinnerStyle::Squish)
        } else if crate::chars::chars_eq_str(&key, "flip") {
            Some(SpinnerStyle::Flip)
        } else if crate::chars::chars_eq_str(&key, "hamburger") {
            Some(SpinnerStyle::Hamburger)
        } else if crate::chars::chars_eq_str(&key, "boxbounce") {
            Some(SpinnerStyle::BoxBounce)
        } else if crate::chars::chars_eq_str(&key, "boxbounce2") {
            Some(SpinnerStyle::BoxBounce2)
        } else if crate::chars::chars_eq_str(&key, "noise") {
            Some(SpinnerStyle::Noise)
        } else if crate::chars::chars_eq_str(&key, "growvertical") {
            Some(SpinnerStyle::GrowVertical)
        } else if crate::chars::chars_eq_str(&key, "growhorizontal") {
            Some(SpinnerStyle::GrowHorizontal)
        } else if crate::chars::chars_eq_str(&key, "balloon") {
            Some(SpinnerStyle::Balloon)
        } else if crate::chars::chars_eq_str(&key, "balloon2") {
            Some(SpinnerStyle::Balloon2)
        } else if crate::chars::chars_eq_str(&key, "toggle") {
            Some(SpinnerStyle::Toggle)
        } else if crate::chars::chars_eq_str(&key, "toggle2") {
            Some(SpinnerStyle::Toggle2)
        } else if crate::chars::chars_eq_str(&key, "toggle3") {
            Some(SpinnerStyle::Toggle3)
        } else if crate::chars::chars_eq_str(&key, "toggle4") {
            Some(SpinnerStyle::Toggle4)
        } else if crate::chars::chars_eq_str(&key, "toggle5") {
            Some(SpinnerStyle::Toggle5)
        } else if crate::chars::chars_eq_str(&key, "toggle6") {
            Some(SpinnerStyle::Toggle6)
        } else if crate::chars::chars_eq_str(&key, "toggle7") {
            Some(SpinnerStyle::Toggle7)
        } else if crate::chars::chars_eq_str(&key, "toggle8") {
            Some(SpinnerStyle::Toggle8)
        } else if crate::chars::chars_eq_str(&key, "toggle9") {
            Some(SpinnerStyle::Toggle9)
        } else if crate::chars::chars_eq_str(&key, "toggle10") {
            Some(SpinnerStyle::Toggle10)
        } else if crate::chars::chars_eq_str(&key, "toggle11") {
            Some(SpinnerStyle::Toggle11)
        } else if crate::chars::chars_eq_str(&key, "toggle12") {
            Some(SpinnerStyle::Toggle12)
        } else if crate::chars::chars_eq_str(&key, "toggle13") {
            Some(SpinnerStyle::Toggle13)
        } else if crate::chars::chars_eq_str(&key, "arrow") {
            Some(SpinnerStyle::Arrow)
        } else if crate::chars::chars_eq_str(&key, "arrow2") {
            Some(SpinnerStyle::Arrow2)
        } else if crate::chars::chars_eq_str(&key, "arrow3") {
            Some(SpinnerStyle::Arrow3)
        } else if crate::chars::chars_eq_str(&key, "bouncingbar") {
            Some(SpinnerStyle::BouncingBar)
        } else if crate::chars::chars_eq_str(&key, "bouncingball") {
            Some(SpinnerStyle::BouncingBall)
        } else if crate::chars::chars_eq_str(&key, "pong") {
            Some(SpinnerStyle::Pong)
        } else if crate::chars::chars_eq_str(&key, "shark") {
            Some(SpinnerStyle::Shark)
        } else if crate::chars::chars_eq_str(&key, "betawave") {
            Some(SpinnerStyle::BetaWave)
        } else if crate::chars::chars_eq_str(&key, "aesthetic") {
            Some(SpinnerStyle::Aesthetic)
        } else if crate::chars::chars_eq_str(&key, "material") {
            Some(SpinnerStyle::Material)
        } else if crate::chars::chars_eq_str(&key, "clock") {
            Some(SpinnerStyle::Clock)
        } else if crate::chars::chars_eq_str(&key, "moon") {
            Some(SpinnerStyle::Moon)
        } else if crate::chars::chars_eq_str(&key, "earth") {
            Some(SpinnerStyle::Earth)
        } else if crate::chars::chars_eq_str(&key, "hearts") {
            Some(SpinnerStyle::Hearts)
        } else if crate::chars::chars_eq_str(&key, "smiley") {
            Some(SpinnerStyle::Smiley)
        } else if crate::chars::chars_eq_str(&key, "monkey") {
            Some(SpinnerStyle::Monkey)
        } else if crate::chars::chars_eq_str(&key, "runner") {
            Some(SpinnerStyle::Runner)
        } else if crate::chars::chars_eq_str(&key, "weather") {
            Some(SpinnerStyle::Weather)
        } else if crate::chars::chars_eq_str(&key, "christmas") {
            Some(SpinnerStyle::Christmas)
        } else if crate::chars::chars_eq_str(&key, "grenade") {
            Some(SpinnerStyle::Grenade)
        } else if crate::chars::chars_eq_str(&key, "fingerdance") {
            Some(SpinnerStyle::FingerDance)
        } else if crate::chars::chars_eq_str(&key, "speaker") {
            Some(SpinnerStyle::Speaker)
        } else if crate::chars::chars_eq_str(&key, "orangepulse") {
            Some(SpinnerStyle::OrangePulse)
        } else if crate::chars::chars_eq_str(&key, "bluepulse") {
            Some(SpinnerStyle::BluePulse)
        } else if crate::chars::chars_eq_str(&key, "orangebluepulse") {
            Some(SpinnerStyle::OrangeBluePulse)
        } else if crate::chars::chars_eq_str(&key, "timetravel") {
            Some(SpinnerStyle::TimeTravel)
        } else if crate::chars::chars_eq_str(&key, "mindblown") {
            Some(SpinnerStyle::Mindblown)
        } else if crate::chars::chars_eq_str(&key, "dqpb") {
            Some(SpinnerStyle::Dqpb)
        } else if crate::chars::chars_eq_str(&key, "point") {
            Some(SpinnerStyle::Point)
        } else if crate::chars::chars_eq_str(&key, "layer") {
            Some(SpinnerStyle::Layer)
        } else {
            None
        }
    }

    /// All spinner style names, in catalogue order.
    pub fn all_names() -> (r: Vec<&'static str>)
        ensures
            r@.len() == 85,
    {
        vec![
            "dots", "dots2", "dots3", "dots4", "dots5", "dots6", "dots7", "dots8", "dots9", "dots10", "dots11", "dots12", "dots13", "dots14", "dotscircle", "sand", "bounce", "line", "line2", "pipe", "rollingline", "simpledots", "simpledotsscrolling", "star", "star2", "arc", "circle", "circlehalves", "circlequarters", "squarecorners", "triangle", "binary", "squish", "flip", "hamburger", "boxbounce", "boxbounce2", "noise", "growvertical", "growhorizontal", "balloon", "balloon2", "toggle", "toggle2", "toggle3", "toggle4", "toggle5", "toggle6", "toggle7", "toggle8", "toggle9", "toggle10", "toggle11", "toggle12", "toggle13", "arrow", "arrow2", "arrow3", "bouncingbar", "bouncingball", "pong", "shark", "betawave", "aesthetic", "material", "clock", "moon", "earth", "hearts", "smiley", "monkey", "runner", "weather", "christmas", "grenade", "fingerdance", "speaker", "orangepulse", "bluepulse", "orangebluepulse", "timetravel", "mindblown", "dqpb", "point", "layer"
        ]
    }
}

/// The characters of a name that matter for spinner lookup: lowercased,
/// with underscores removed.
pub open spec fn spinner_key(s: Seq<char>) -> Seq<char>
    decreases s.len(),
{
    if s.len() == 0 {
        Seq::empty()
    } else if s[0] == '_' {
        spinner_key(s.drop_first())
    } else {
        seq![s[0]] + spinner_key(s.drop_first())
    }
}

/// The spinner style a normalized lookup key names, if any.
pub open spec fn spinner_for_key(t: Seq<char>) -> Option<SpinnerStyle> {
    if t == "dots"@ {
        Some(SpinnerStyle::Dots)
    } else if t == "dots2"@ {
        Some(SpinnerStyle::Dots2)
    } else if t == "dots3"@ {
        Some(SpinnerStyle::Dots3)
    } else if t == "dots4"@ {
        Some(SpinnerStyle::Dots4)
    } else if t == "dots5"@ {
        Some(SpinnerStyle::Dots5)
    } else if t == "dots6"@ {
        Some(SpinnerStyle::Dots6)
    } else if t == "dots7"@ {
        Some(SpinnerStyle::Dots7)
    } else if t == "dots8"@ {
        Some(SpinnerStyle::Dots8)
    } else if t == "dots9"@ {
        Some(SpinnerStyle::Dots9)
    } else if t == "dots10"@ {
        Some(SpinnerStyle::Dots10)
    } else if t == "dots11"@ {
        Some(SpinnerStyle::Dots11)
    } else if t == "dots12"@ {
        Some(SpinnerStyle::Dots12)
    } else if t == "dots13"@ {
        Some(SpinnerStyle::Dots13)
    } else if t == "dots14"@ {
        Some(SpinnerStyle::Dots14)
    } else if t == "dotscircle"@ {
        Some(SpinnerStyle::DotsCircle)
    } else if t == "sand"@ {
        Some(SpinnerStyle::Sand)
    } else if t == "bounce"@ {
        Some(SpinnerStyle::Bounce)
    } else if t == "line"@ {
        Some(SpinnerStyle::Line)
    } else if t == "line2"@ {
        Some(SpinnerStyle::Line2)
    } else if t == "pipe"@ {
        Some(SpinnerStyle::Pipe)
    } else if t == "rollingline"@ {
        Some(SpinnerStyle::RollingLine)
    } else if t == "simpledots"@ {
        Some(SpinnerStyle::SimpleDots)
    } else if t == "simpledotsscrolling"@ {
        Some(SpinnerStyle::SimpleDotsScrolling)
    } else if t == "star"@ {
        Some(SpinnerStyle::Star)
    } else if t == "star2"@ {
        Some(SpinnerStyle::Star2)
    } else if t == "arc"@ {
        Some(SpinnerStyle::Arc)
    } else if t == "circle"@ {
        Some(SpinnerStyle::Circle)
    } else if t == "circlehalves"@ {
        Some(SpinnerStyle::CircleHalves)
    } else if t == "circlequarters"@ {
        Some(SpinnerStyle::CircleQuarters)
    } else if t == "squarecorners"@ {
        Some(SpinnerStyle::SquareCorners)
    } else if t == "triangle"@ {
        Some(SpinnerStyle::Triangle)
    } else if t == "binary"@ {
        Some(SpinnerStyle::Binary)
    } else if t == "squish"@ {
        Some(SpinnerStyle::Squish)
    } else if t == "flip"@ {
        Some(SpinnerStyle::Flip)
    } else if t == "hamburger"@ {
        Some(SpinnerStyle::Hamburger)
    } else if t == "boxbounce"@ {
        Some(SpinnerStyle::BoxBounce)
    } else if t == "boxbounce2"@ {
        Some(SpinnerStyle::BoxBounce2)
    } else if t == "noise"@ {
        Some(SpinnerStyle::Noise)
    } else if t == "growvertical"@ {
        Some(SpinnerStyle::GrowVertical)
    } else if t == "growhorizontal"@ {
        Some(SpinnerStyle::GrowHorizontal)
    } else if t == "balloon"@ {
        Some(SpinnerStyle::Balloon)
    } else if t == "balloon2"@ {
        Some(SpinnerStyle::Balloon2)
    } else if t == "toggle"@ {
        Some(SpinnerStyle::Toggle)
    } else if t == "toggle2"@ {
        Some(SpinnerStyle::Toggle2)
    } else if t == "toggle3"@ {
        Some(SpinnerStyle::Toggle3)
    } else if t == "toggle4"@ {
        Some(SpinnerStyle::Toggle4)
    } else if t == "toggle5"@ {
        Some(SpinnerStyle::Toggle5)
    } else if t == "toggle6"@ {
        Some(SpinnerStyle::Toggle6)
    } else if t == "toggle7"@ {
        Some(SpinnerStyle::Toggle7)
    } else if t == "toggle8"@ {
        Some(SpinnerStyle::Toggle8)
    } else if t == "toggle9"@ {
        Some(SpinnerStyle::Toggle9)
    } else if t == "toggle10"@ {
        Some(SpinnerStyle::Toggle10)
    } else if t == "toggle11"@ {
        Some(SpinnerStyle::Toggle11)
    } else if t == "toggle12"@ {
        Some(SpinnerStyle::Toggle12)
    } else if t == "toggle13"@ {
        Some(SpinnerStyle::Toggle13)
    } else if t == "arrow"@ {
        Some(SpinnerStyle::Arrow)
    } else if t == "arrow2"@ {
        Some(SpinnerStyle::Arrow2)
    } else if t == "arrow3"@ {
        Some(SpinnerStyle::Arrow3)
    } else if t == "bouncingbar"@ {
        Some(SpinnerStyle::BouncingBar)
    } else if t == "bouncingball"@ {
        Some(SpinnerStyle::BouncingBall)
    } else if t == "pong"@ {
        Some(SpinnerStyle::Pong)
    } else if t == "shark"@ {
        Some(SpinnerStyle::Shark)
    } else if t == "betawave"@ {
        Some(SpinnerStyle::BetaWave)
    } else if t == "aesthetic"@ {
        Some(SpinnerStyle::Aesthetic)
    } else if t == "material"@ {
        Some(SpinnerStyle::Material)
    } else if t == "clock"@ {
        Some(SpinnerStyle::Clock)
    } else if t == "moon"@ {
        Some(SpinnerStyle::Moon)
    } else if t == "earth"@ {
        Some(SpinnerStyle::Earth)
    } else if t == "hearts"@ {
        Some(SpinnerStyle::Hearts)
    } else if t == "smiley"@ {
        Some(SpinnerStyle::Smiley)
    } else if t == "monkey"@ {
        Some(SpinnerStyle::Monkey)
    } else if t == "runner"@ {
        Some(SpinnerStyle::Runner)
    } else if t == "weather"@ {
        Some(SpinnerStyle::Weather)
    } else if t == "christmas"@ {
        Some(SpinnerStyle::Christmas)
    } else if t == "grenade"@ {
        Some(SpinnerStyle::Grenade)
    } else if t == "fingerdance"@ {
        Some(SpinnerStyle::FingerDance)
    } else if t == "speaker"@ {
        Some(SpinnerStyle::Speaker)
    } else if t == "orangepulse"@ {
        Some(SpinnerStyle::OrangePulse)
    } else if t == "bluepulse"@ {
        Some(SpinnerStyle::BluePulse)
    } else if t == "orangebluepulse"@ {
        Some(SpinnerStyle::OrangeBluePulse)
    } else if t == "timetravel"@ {
        Some(SpinnerStyle::TimeTravel)
    } else if t == "mindblown"@ {
        Some(SpinnerStyle::Mindblown)
    } else if t == "dqpb"@ {
        Some(SpinnerStyle::Dqpb)
    } else if t == "point"@ {
        Some(SpinnerStyle::Point)
    } else if t == "layer"@ {
        Some(SpinnerStyle::Layer)
    } else {
        None
    }
}

/// An animated spinner with a text label.
pub struct Spinner {
    /// The animation style
    pub style: SpinnerStyle,
    /// When the spinner started, in milliseconds since the epoch
    pub start_millis: u64,
    /// The text shown after the spinner
    pub text: String,
    /// The style of the spinner character
    pub spinner_style: Style,
    /// The style of the text
    pub text_style: Style,
}

impl Spinner {
    /// Create a spinner with the given label.
    pub fn new(text: &str) -> (s: Spinner)
        ensures
            s.style is Dots,
            s.text@ == text@,
    {
        Spinner {
            style: SpinnerStyle::Dots,
            start_millis: crate::clock::now_epoch_millis(),
            text: text.to_owned(),
            spinner_style: Style::new().foreground(Color::Cyan),
            text_style: Style::new(),
        }
    }

    /// Set the animation style.
    pub fn style(self, style: SpinnerStyle) -> (s: Spinner)
        ensures
            s.style == style,
            s.text == self.text,
    {
        Spinner { style, ..self }
    }

    /// Set the animation style by name; `None` when the name is unknown.
    pub fn style_name(self, name: &str) -> (r: Option<Spinner>) {
        match SpinnerStyle::from_name(name) {
            Some(style) => Some(Spinner { style, ..self }),
            None => None,
        }
    }

    /// Set the style of the spinner character.
    pub fn spinner_style(self, style: Style) -> (s: Spinner)
        ensures
            s.spinner_style == style,
            s.text == self.text,
            s.style == self.style,
    {
        Spinner { spinner_style: style, ..self }
    }

    /// Set the style of the text.
    pub fn text_style(self, style: Style) -> (s: Spinner)
        ensures
            s.text_style == style,
            s.text == self.text,
            s.style == self.style,
    {
        Spinner { text_style: style, ..self }
    }

    /// Replace the text.
    pub fn text(self, text: &str) -> (s: Spinner)
        ensures
            s.text@ == text@,
            s.style == self.style,
    {
        Spinner { text: text.to_owned(), ..self }
    }

    /// Update the text in place.
    pub fn set_text(&mut self, text: &str)
        ensures
            final(self).text@ == text@,
            final(self).style == old(self).style,
    {
        self.text = text.to_owned();
    }

    /// The current text.
    pub fn get_text(&self) -> (r: &str)
        ensures
            r@ == self.text@,
    {
        self.text.as_str()
    }

    /// The animation style.
    pub fn get_style(&self) -> (r: SpinnerStyle)
        ensures
            r == self.style,
    {
        self.style
    }

    /// The frame shown at this moment, advanced by the clock.
    pub fn current_frame(&self) -> &'static str {
        let frames = self.style.frames();
        let interval = self.style.interval_ms();
        let now = crate::clock::now_epoch_millis();
        let elapsed = if now >= self.start_millis {
            now - self.start_millis
        } else {
            0
        };
        let idx = ((elapsed / interval) as usize) % frames.len();
        frames[idx]
    }

    /// Render the spinner: the current frame, a space, and the text.
    pub fn render(&self) -> (r: Vec<Span>)
        ensures
            r@.len() == 3,
    {
        let mut spans: Vec<Span> = Vec::new();
        spans.push(Span::styled(self.current_frame(), self.spinner_style));
        spans.push(Span::raw(" "));
        spans.push(Span::styled(self.text.as_str(), self.text_style));
        spans
    }

    /// Render to a plain string: the current frame and the text.
    pub fn to_string_colored(&self) -> String {
        let mut out = String::new();
        out.append(self.current_frame());
        crate::chars::push_char(&mut out, ' ');
        out.append(self.text.as_str());
        out
    }
}

impl Default for Spinner {
    /// A spinner with no label.
    fn default() -> (s: Spinner)
        ensures
            s.style is Dots,
    {
        Spinner::new("")
    }
}

} // verus!