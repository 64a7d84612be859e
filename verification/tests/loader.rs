use tattoy::config::AnimatedCursorConfig;
use tattoy::config::ColourGrade;
use tattoy::config::Config;
use tattoy::config::MinimapConfig;
use tattoy::config::ShaderConfig;
use tattoy::config::TextContrast;
use tattoy::loader::convert_cli_enabled_args;
use tattoy::loader::spawn;
use tattoy::loader::start_tattoys;
use tattoy::loader::wait_for_enabled_tattoys_to_start;
use tattoy::loader::Step;
use tattoy::loader::System;
use tattoy::loader::Tattoy;
use tattoy::scalar::Scalar;
use tattoy::tattoys::plugins::Config as PluginConfig;

fn scalar(value: f32) -> Scalar {
    Scalar::from_bits(value.to_bits())
}

fn config() -> Config {
    Config {
        frame_rate: 30,
        show_startup_logo: false,
        show_tattoy_indicator: true,
        text_contrast: TextContrast {
            enabled: false,
            target_contrast: scalar(2.0),
            apply_to_readable_text_only: true,
        },
        color: ColourGrade { saturation: scalar(0.0), brightness: scalar(0.0), hue: scalar(0.0) },
        minimap: MinimapConfig { enabled: false, max_width: 15, animation_speed: scalar(0.15) },
        shader: ShaderConfig {
            enabled: false,
            path: String::new(),
            opacity: scalar(0.75),
            layer: -10,
            render: true,
            upload_tty_as_pixels: true,
            render_shader_colours_to_text: false,
        },
        animated_cursor: AnimatedCursorConfig {
            enabled: false,
            path: String::new(),
            opacity: scalar(0.75),
            layer: -1,
            cursor_scale: scalar(1.0),
        },
        notifications_enabled: false,
        bg_command_enabled: false,
        plugins: Vec::new(),
    }
}

fn plugin(name: &str, enabled: Option<bool>) -> PluginConfig {
    PluginConfig { name: name.to_owned(), path: "/bin/true".to_owned(), layer: None, opacity: None, enabled }
}

fn names(names: &[&str]) -> Vec<String> {
    names.iter().map(|name| (*name).to_owned()).collect()
}

#[test]
fn only_the_scrollbar_starts_by_itself() {
    let steps = spawn(&Vec::new(), &config());
    assert_eq!(steps, [Step::WaitFor(System::Renderer), Step::Start(Tattoy::Scrollbar)]);
    assert_eq!(wait_for_enabled_tattoys_to_start(&Vec::new(), &config()), []);
}

#[test]
fn layers_start_in_their_order() {
    let mut settings = config();
    settings.show_startup_logo = true;
    settings.notifications_enabled = true;
    settings.minimap.enabled = true;
    settings.shader.enabled = true;
    settings.animated_cursor.enabled = true;
    settings.bg_command_enabled = true;
    settings.plugins = vec![plugin("one", None), plugin("off", Some(false)), plugin("on", Some(true))];
    let asked_for = names(&["random_walker"]);
    assert_eq!(
        spawn(&asked_for, &settings),
        [
            Step::WaitFor(System::Renderer),
            Step::Start(Tattoy::StartupLogo),
            Step::Start(Tattoy::Notifications),
            Step::WaitFor(System::Notifications),
            Step::Start(Tattoy::Scrollbar),
            Step::Start(Tattoy::RandomWalker),
            Step::Start(Tattoy::Minimap),
            Step::Start(Tattoy::Shaders),
            Step::Start(Tattoy::AnimatedCursor),
            Step::Start(Tattoy::BgCommand),
            Step::Start(Tattoy::Plugin(0)),
            Step::Start(Tattoy::Plugin(2)),
        ]
    );
    assert_eq!(
        wait_for_enabled_tattoys_to_start(&asked_for, &settings),
        [System::RandomWalker, System::Shader, System::Minimap, System::AnimatedCursor]
    );
}

#[test]
fn layers_that_are_asked_for_are_switched_on() {
    let mut settings = config();
    convert_cli_enabled_args(&names(&["minimap", "shaders", "random_walker", "nonsense"]), &mut settings);
    assert!(settings.minimap.enabled);
    assert!(settings.shader.enabled);
    assert!(!settings.animated_cursor.enabled);
    assert!(!settings.show_startup_logo);
    assert!(!settings.notifications_enabled);
    assert!(!settings.bg_command_enabled);
    let mut settings = config();
    convert_cli_enabled_args(
        &names(&["startup_logo", "notifications", "animated_cursor", "bg_command"]),
        &mut settings,
    );
    assert!(settings.show_startup_logo);
    assert!(settings.notifications_enabled);
    assert!(settings.animated_cursor.enabled);
    assert!(settings.bg_command_enabled);
    assert!(!settings.minimap.enabled);
}

#[test]
fn starting_the_layers_switches_on_and_plans() {
    let mut settings = config();
    let (steps, waits) = start_tattoys(&names(&["minimap"]), &mut settings);
    assert!(settings.minimap.enabled);
    assert_eq!(
        steps,
        [Step::WaitFor(System::Renderer), Step::Start(Tattoy::Scrollbar), Step::Start(Tattoy::Minimap)]
    );
    assert_eq!(waits, [System::Minimap]);
}
