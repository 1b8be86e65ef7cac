//! The present loop of the rendering harness: its settings, and what happens after each frame.

use vstd::prelude::*;

use crate::levels::{Level, LogLine, LogLineView};
use crate::text;
use crate::text::{bool_chars, dec, unsigned_value};

verus! {

/// The settings of a run.
#[derive(Debug)]
pub struct HarnessConfig {
    pub log_path: String,
    /// Frames to present before hooking.
    pub warmup: u64,
    /// Frames to present in all; zero runs until the window is closed.
    pub frames: u64,
    pub buffers: u32,
    pub vsync: u32,
    pub warp: bool,
    pub hook_thread: bool,
    pub hook: bool,
}

/// The environment variables that a run looks at, where they are set.
#[derive(Debug)]
pub struct HarnessEnv {
    pub log: Option<String>,
    pub warmup: Option<String>,
    pub frames: Option<String>,
    pub buffers: Option<String>,
    pub vsync: Option<String>,
    pub warp: Option<String>,
    pub hook_thread: Option<String>,
    pub no_hook: Option<String>,
}

/// A number from a variable, or its default if it is not set or not a number.
pub open spec fn number_or(value: Option<String>, default: u64) -> u64 {
    match value {
        Some(v) => match unsigned_value(v@) {
            Some(n) => n as u64,
            None => default,
        },
        None => default,
    }
}

/// A flag from a variable, or its default if it is not set; only `1` and `true` switch it on.
pub open spec fn flag_or(value: Option<String>, default: bool) -> bool {
    match value {
        Some(v) => v@ == "1"@ || v@ == "true"@,
        None => default,
    }
}

fn number(value: &Option<String>, default: u64) -> (n: u64)
    ensures
        n == number_or(*value, default),
{
    match value {
        Some(v) => match text::parse_unsigned(v.as_str()) {
            Some(n) => n,
            None => default,
        },
        None => default,
    }
}

fn flag(value: &Option<String>, default: bool) -> (on: bool)
    ensures
        on == flag_or(*value, default),
{
    match value {
        Some(v) => text::same_text(v.as_str(), "1") || text::same_text(v.as_str(), "true"),
        None => default,
    }
}

/// The low 32 bits of a number.
pub open spec fn low_half(n: u64) -> u32 {
    (n % 0x1_0000_0000) as u32
}

impl HarnessConfig {
    /// The settings that the environment asks for.
    pub fn from_env(env: &HarnessEnv) -> (config: HarnessConfig)
        ensures
            config.log_path@ == (match env.log {
                Some(path) => path@,
                None => "dx12-harness.log"@,
            }),
            config.warmup == number_or(env.warmup, 120),
            config.frames == number_or(env.frames, 0),
            config.buffers == low_half(number_or(env.buffers, 3)),
            config.vsync == low_half(number_or(env.vsync, 1)),
            config.warp == flag_or(env.warp, false),
            config.hook_thread == flag_or(env.hook_thread, true),
            config.hook == !flag_or(env.no_hook, false),
    {
        let buffers: u64 = number(&env.buffers, 3) % 0x1_0000_0000;
        let vsync: u64 = number(&env.vsync, 1) % 0x1_0000_0000;
        HarnessConfig {
            log_path: match &env.log {
                Some(path) => path.clone(),
                None => "dx12-harness.log".to_owned(),
            },
            warmup: number(&env.warmup, 120),
            frames: number(&env.frames, 0),
            buffers: buffers as u32,
            vsync: vsync as u32,
            warp: flag(&env.warp, false),
            hook_thread: flag(&env.hook_thread, true),
            hook: !flag(&env.no_hook, false),
        }
    }

    /// The first line of a run.
    pub fn start_line(&self, build: &str) -> (line: LogLine)
        ensures
            line@ == (LogLineView {
                level: Level::Info,
                text: "dx12-harness start: build "@ + build@ + " | warmup="@ + dec(
                    self.warmup as nat,
                ) + " frames="@ + dec(self.frames as nat) + " buffers="@ + dec(
                    self.buffers as nat,
                ) + " vsync="@ + dec(self.vsync as nat) + " warp="@ + bool_chars(self.warp)
                    + " hook="@ + bool_chars(self.hook) + " hook_thread="@ + bool_chars(
                    self.hook_thread,
                ),
            }),
    {
        let mut out = "dx12-harness start: build ".to_owned();
        out.append(build);
        out.append(" | warmup=");
        out.append(text::dec_text(self.warmup).as_str());
        out.append(" frames=");
        out.append(text::dec_text(self.frames).as_str());
        out.append(" buffers=");
        out.append(text::dec_text(self.buffers as u64).as_str());
        out.append(" vsync=");
        out.append(text::dec_text(self.vsync as u64).as_str());
        out.append(" warp=");
        out.append(text::bool_text(self.warp).as_str());
        out.append(" hook=");
        out.append(text::bool_text(self.hook).as_str());
        out.append(" hook_thread=");
        out.append(text::bool_text(self.hook_thread).as_str());
        LogLine { level: Level::Info, text: out }
    }
}

/// What happens after a frame was presented.
#[derive(Debug)]
pub struct FrameStep {
    /// Place the hook now, after this line.
    pub inject: Option<LogLine>,
    /// Stop now, after this line.
    pub stop: Option<LogLine>,
}

/// The state of the present loop.
#[derive(Clone, Copy, Debug, PartialEq, Eq, Structural)]
pub struct PresentLoop {
    pub frame: u64,
    pub hooked: bool,
}

impl PresentLoop {
    /// Whether the next frame places the hook.
    pub open spec fn injects(self, config: HarnessConfig) -> bool {
        config.hook && !self.hooked && self.frame + 1 >= config.warmup
    }

    /// The loop after the next frame.
    pub open spec fn next(self, config: HarnessConfig) -> PresentLoop {
        PresentLoop {
            frame: (self.frame + 1) as u64,
            hooked: self.hooked || self.injects(config),
        }
    }

    /// Nothing presented and nothing hooked.
    pub fn new() -> (state: PresentLoop)
        ensures
            state == (PresentLoop { frame: 0, hooked: false }),
    {
        PresentLoop { frame: 0, hooked: false }
    }

    /// After one more frame was presented: the hook is placed once, when the warm-up is over, and the
    /// loop stops at the frame cap, if there is one.
    pub fn presented(&mut self, config: &HarnessConfig) -> (step: FrameStep)
        requires
            old(self).frame < u64::MAX,
        ensures
            *final(self) == old(self).next(*config),
            step.inject is Some == old(self).injects(*config),
            step.inject is Some ==> step.inject->0@ == (LogLineView {
                level: Level::Info,
                text: "dx12-harness: warmup complete ("@ + dec(final(self).frame as nat)
                    + " frames presented); injecting overlay hook"@,
            }),
            step.stop is Some == (config.frames != 0 && final(self).frame >= config.frames),
            step.stop is Some ==> step.stop->0@ == (LogLineView {
                level: Level::Info,
                text: "dx12-harness: reached frame cap ("@ + dec(config.frames as nat)
                    + "); exiting"@,
            }),
    {
        self.frame = self.frame + 1;
        let inject = if config.hook && !self.hooked && self.frame >= config.warmup {
            self.hooked = true;
            let mut out = "dx12-harness: warmup complete (".to_owned();
            out.append(text::dec_text(self.frame).as_str());
            out.append(" frames presented); injecting overlay hook");
            Some(LogLine { level: Level::Info, text: out })
        } else {
            None
        };
        let stop = if config.frames != 0 && self.frame >= config.frames {
            let mut out = "dx12-harness: reached frame cap (".to_owned();
            out.append(text::dec_text(config.frames).as_str());
            out.append("); exiting");
            Some(LogLine { level: Level::Info, text: out })
        } else {
            None
        };
        FrameStep { inject, stop }
    }
}

/// The last line of a run.
pub fn done_line(presented: u64, rendered: u64) -> (line: LogLine)
    ensures
        line@ == (LogLineView {
            level: Level::Info,
            text: "dx12-harness done: presented "@ + dec(presented as nat)
                + " frames, overlay rendered "@ + dec(rendered as nat) + " frames"@,
        }),
{
    let mut out = "dx12-harness done: presented ".to_owned();
    out.append(text::dec_text(presented).as_str());
    out.append(" frames, overlay rendered ");
    out.append(text::dec_text(rendered).as_str());
    out.append(" frames");
    LogLine { level: Level::Info, text: out }
}

/// The hook is placed at most once in a run: once it is placed no later frame places it.
pub proof fn hook_is_placed_once(state: PresentLoop, config: HarnessConfig, later: HarnessConfig)
    requires
        state.hooked || state.injects(config),
    ensures
        state.next(config).hooked,
        !state.next(config).injects(later),
{
}

/// A setting that is not given, or is no number, is the default; one that is given is taken as it is.
pub proof fn settings_are_taken_as_given(value: String, default: u64, on: bool)
    ensures
        number_or(None, default) == default,
        unsigned_value(value@) is None ==> number_or(Some(value), default) == default,
        unsigned_value(value@) matches Some(n) ==> number_or(Some(value), default) == n as u64,
        flag_or(None, on) == on,
        value@ == "1"@ ==> flag_or(Some(value), on),
        value@ == "true"@ ==> flag_or(Some(value), on),
        value@ != "1"@ && value@ != "true"@ ==> !flag_or(Some(value), on),
{
}

/// A number that fits is kept as it is.
pub proof fn small_numbers_are_kept(n: u64)
    ensures
        n <= u32::MAX ==> low_half(n) == n,
        (n - low_half(n)) % 0x1_0000_0000 == 0,
{
}

/// The hook is placed when the warm-up is over and not before, and only where it is wanted.
pub proof fn the_hook_waits_for_the_warmup(state: PresentLoop, config: HarnessConfig)
    requires
        state.frame < u64::MAX,
        !state.hooked,
    ensures
        !config.hook ==> !state.injects(config),
        config.hook && state.frame + 1 < config.warmup ==> !state.injects(config),
        config.hook && state.frame + 1 >= config.warmup ==> state.injects(config),
        state.next(config).frame == state.frame + 1,
        state.next(config).hooked == state.injects(config),
{
}

} // verus!
