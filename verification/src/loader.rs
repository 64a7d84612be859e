//! The loader: which layers are started, and in which order.
use crate::config::Config;
use crate::text::same_text;
use vstd::prelude::*;

verus! {

/// The name of the startup logo among the layers that the user asks for.
pub const STARTUP_LOGO: &'static str = "startup_logo";

/// The name of the notifications among the layers that the user asks for.
pub const NOTIFICATIONS: &'static str = "notifications";

/// The name of the minimap among the layers that the user asks for.
pub const MINIMAP: &'static str = "minimap";

/// The name of the shader among the layers that the user asks for.
pub const SHADERS: &'static str = "shaders";

/// The name of the animated cursor among the layers that the user asks for.
pub const ANIMATED_CURSOR: &'static str = "animated_cursor";

/// The name of the background command among the layers that the user asks for.
pub const BG_COMMAND: &'static str = "bg_command";

/// The name of the random walker among the layers that the user asks for.
pub const RANDOM_WALKER: &'static str = "random_walker";

/// The title of what the user is told when a layer has failed.
pub const UNHANDLED_ERROR_TITLE: &'static str = "Unhandled tattoy error";

/// A part of the program that others wait for.
#[derive(Clone, Copy, Debug, PartialEq, Eq, Structural)]
pub enum System {
    Renderer,
    Notifications,
    RandomWalker,
    Shader,
    Minimap,
    AnimatedCursor,
}

/// A layer.
#[derive(Clone, Copy, Debug, PartialEq, Eq, Structural)]
pub enum Tattoy {
    StartupLogo,
    Notifications,
    Scrollbar,
    RandomWalker,
    Minimap,
    Shaders,
    AnimatedCursor,
    BgCommand,
    /// The plugin at a place among the plugins of the settings.
    Plugin(usize),
}

/// One step of starting the layers.
#[derive(Clone, Copy, Debug, PartialEq, Eq, Structural)]
pub enum Step {
    /// A layer is started.
    Start(Tattoy),
    /// A part of the program is waited for.
    WaitFor(System),
}

/// Whether a name is among the names that the user has asked for.
pub open spec fn is_asked_for(enabled_tattoys: Seq<String>, name: Seq<char>) -> bool {
    exists|i: int| 0 <= i < enabled_tattoys.len() && (#[trigger] enabled_tattoys[i])@ == name
}

/// The settings after the layers that the user has asked for by name have
/// been switched on. A name that is no layer with a switch changes nothing.
pub open spec fn with_asked_for(config: Config, enabled_tattoys: Seq<String>) -> Config {
    Config {
        show_startup_logo: config.show_startup_logo || is_asked_for(enabled_tattoys, STARTUP_LOGO@),
        notifications_enabled: config.notifications_enabled || is_asked_for(
            enabled_tattoys,
            NOTIFICATIONS@,
        ),
        minimap: crate::config::MinimapConfig {
            enabled: config.minimap.enabled || is_asked_for(enabled_tattoys, MINIMAP@),
            ..config.minimap
        },
        shader: crate::config::ShaderConfig {
            enabled: config.shader.enabled || is_asked_for(enabled_tattoys, SHADERS@),
            ..config.shader
        },
        animated_cursor: crate::config::AnimatedCursorConfig {
            enabled: config.animated_cursor.enabled || is_asked_for(enabled_tattoys, ANIMATED_CURSOR@),
            ..config.animated_cursor
        },
        bg_command_enabled: config.bg_command_enabled || is_asked_for(enabled_tattoys, BG_COMMAND@),
        ..config
    }
}

/// The steps with one more, if a condition holds.
pub open spec fn and_then(steps: Seq<Step>, condition: bool, step: Step) -> Seq<Step> {
    if condition {
        steps.push(step)
    } else {
        steps
    }
}

/// The steps, and then those that start the first `count` plugins of the
/// settings: each that is not switched off, in its place.
pub open spec fn and_plugins(steps: Seq<Step>, config: Config, count: int) -> Seq<Step>
    decreases count,
{
    if count <= 0 {
        steps
    } else {
        and_then(
            and_plugins(steps, config, count - 1),
            config.plugins[count - 1].enabled != Some(false),
            Step::Start(Tattoy::Plugin((count - 1) as usize)),
        )
    }
}

/// The steps that start the layers.
///
/// The renderer is waited for first. The startup logo and the
/// notifications follow where they are switched on, and the notifications
/// are waited for. The scrollbar is always started. The random walker
/// starts only when the user asks for it by name. Then come the minimap,
/// the shader, the animated cursor and the background command where they
/// are switched on, and at last the plugins.
pub open spec fn steps_of(config: Config, with_random_walker: bool) -> Seq<Step> {
    let renderer = seq![Step::WaitFor(System::Renderer)];
    let logo = and_then(renderer, config.show_startup_logo, Step::Start(Tattoy::StartupLogo));
    let notifications = and_then(
        and_then(logo, config.notifications_enabled, Step::Start(Tattoy::Notifications)),
        config.notifications_enabled,
        Step::WaitFor(System::Notifications),
    );
    let scrollbar = notifications.push(Step::Start(Tattoy::Scrollbar));
    let walker = and_then(scrollbar, with_random_walker, Step::Start(Tattoy::RandomWalker));
    let minimap = and_then(walker, config.minimap.enabled, Step::Start(Tattoy::Minimap));
    let shader = and_then(minimap, config.shader.enabled, Step::Start(Tattoy::Shaders));
    let cursor = and_then(
        shader,
        config.animated_cursor.enabled,
        Step::Start(Tattoy::AnimatedCursor),
    );
    let command = and_then(cursor, config.bg_command_enabled, Step::Start(Tattoy::BgCommand));
    and_plugins(command, config, config.plugins.len() as int)
}

/// The parts of the program that are waited for before the terminal starts.
pub open spec fn waits_of(config: Config, with_random_walker: bool) -> Seq<System> {
    when_system(with_random_walker, System::RandomWalker) + when_system(
        config.shader.enabled,
        System::Shader,
    ) + when_system(config.minimap.enabled, System::Minimap) + when_system(
        config.animated_cursor.enabled,
        System::AnimatedCursor,
    )
}

/// A part of the program that is waited for only on a condition.
pub open spec fn when_system(condition: bool, system: System) -> Seq<System> {
    if condition {
        seq![system]
    } else {
        Seq::empty()
    }
}

/// Whether a name is among the names that the user has asked for.
pub fn contains(enabled_tattoys: &Vec<String>, name: &str) -> (found: bool)
    ensures
        found == is_asked_for(enabled_tattoys@, name@),
{
    let mut index: usize = 0;
    while index < enabled_tattoys.len()
        invariant
            index <= enabled_tattoys.len(),
            forall|i: int| 0 <= i < index ==> (#[trigger] enabled_tattoys[i])@ != name@,
        decreases enabled_tattoys.len() - index,
    {
        if same_text(enabled_tattoys[index].as_str(), name) {
            return true;
        }
        index = index + 1;
    }
    false
}

/// Switches on the layers that the user has asked for by name.
pub fn convert_cli_enabled_args(enabled_tattoys: &Vec<String>, config: &mut Config)
    ensures
        *final(config) == with_asked_for(*old(config), enabled_tattoys@),
{
    if contains(enabled_tattoys, STARTUP_LOGO) {
        config.show_startup_logo = true;
    }
    if contains(enabled_tattoys, NOTIFICATIONS) {
        config.notifications_enabled = true;
    }
    if contains(enabled_tattoys, MINIMAP) {
        config.minimap.enabled = true;
    }
    if contains(enabled_tattoys, SHADERS) {
        config.shader.enabled = true;
    }
    if contains(enabled_tattoys, ANIMATED_CURSOR) {
        config.animated_cursor.enabled = true;
    }
    if contains(enabled_tattoys, BG_COMMAND) {
        config.bg_command_enabled = true;
    }
}

/// The steps that start the layers, in their order.
pub fn spawn(enabled_tattoys: &Vec<String>, config: &Config) -> (steps: Vec<Step>)
    ensures
        steps@ == steps_of(*config, is_asked_for(enabled_tattoys@, RANDOM_WALKER@)),
{
    let mut steps: Vec<Step> = Vec::new();
    steps.push(Step::WaitFor(System::Renderer));
    if config.show_startup_logo {
        steps.push(Step::Start(Tattoy::StartupLogo));
    }
    if config.notifications_enabled {
        steps.push(Step::Start(Tattoy::Notifications));
        steps.push(Step::WaitFor(System::Notifications));
    }
    steps.push(Step::Start(Tattoy::Scrollbar));
    if contains(enabled_tattoys, RANDOM_WALKER) {
        steps.push(Step::Start(Tattoy::RandomWalker));
    }
    if config.minimap.enabled {
        steps.push(Step::Start(Tattoy::Minimap));
    }
    if config.shader.enabled {
        steps.push(Step::Start(Tattoy::Shaders));
    }
    if config.animated_cursor.enabled {
        steps.push(Step::Start(Tattoy::AnimatedCursor));
    }
    if config.bg_command_enabled {
        steps.push(Step::Start(Tattoy::BgCommand));
    }
    let ghost fixed = steps@;
    let mut index: usize = 0;
    while index < config.plugins.len()
        invariant
            index <= config.plugins.len(),
            steps@ == and_plugins(fixed, *config, index as int),
        decreases config.plugins.len() - index,
    {
        let is_off = match config.plugins[index].enabled {
            Some(is_enabled) => !is_enabled,
            None => false,
        };
        if !is_off {
            steps.push(Step::Start(Tattoy::Plugin(index)));
        }
        index = index + 1;
    }
    steps
}

/// The parts of the program that are waited for before the terminal starts.
pub fn wait_for_enabled_tattoys_to_start(enabled_tattoys: &Vec<String>, config: &Config) -> (waits:
    Vec<System>)
    ensures
        waits@ == waits_of(*config, is_asked_for(enabled_tattoys@, RANDOM_WALKER@)),
{
    let mut waits: Vec<System> = Vec::new();
    if contains(enabled_tattoys, RANDOM_WALKER) {
        waits.push(System::RandomWalker);
    }
    if config.shader.enabled {
        waits.push(System::Shader);
    }
    if config.minimap.enabled {
        waits.push(System::Minimap);
    }
    if config.animated_cursor.enabled {
        waits.push(System::AnimatedCursor);
    }
    waits
}

/// Everything that starting the layers comes to: the settings with the
/// layers that the user has asked for switched on, the steps that start the
/// layers, and the parts of the program to wait for afterwards.
pub fn start_tattoys(enabled_tattoys: &Vec<String>, config: &mut Config) -> (plan: (Vec<Step>, Vec<System>))
    ensures
        *final(config) == with_asked_for(*old(config), enabled_tattoys@),
        plan.0@ == steps_of(*final(config), is_asked_for(enabled_tattoys@, RANDOM_WALKER@)),
        plan.1@ == waits_of(*final(config), is_asked_for(enabled_tattoys@, RANDOM_WALKER@)),
{
    convert_cli_enabled_args(enabled_tattoys, config);
    let steps = spawn(enabled_tattoys, config);
    let waits = wait_for_enabled_tattoys_to_start(enabled_tattoys, config);
    (steps, waits)
}

} // verus!
