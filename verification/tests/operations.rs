use shurectl::command::{
    AutoGain, AutoTone, Command, CompressorPreset, EqPreset, Getter, HpfFrequency, InputMode,
    LedBehavior, LedBrightness, LedLiveTheme, LedPulsingTheme, LedSolidTheme, MicPosition, Packet,
    ReverbType, Setter, TextCommand,
};
use shurectl::device::ShureDevice;
use shurectl::enumerate::Target;
use shurectl::error::DeviceError;
use shurectl::exchange::{
    Action, AppliedOf, Codec, Event, Exchange, Output, ResponseOf, Step, StepOf, TextGoal,
};
use shurectl::model::DeviceModel;
use shurectl::plan::state_getters;

const ALL: [DeviceModel; 5] = [
    DeviceModel::Mvx2u,
    DeviceModel::Mvx2uGen2,
    DeviceModel::Mv6,
    DeviceModel::Mv7,
    DeviceModel::Mv7Plus,
];

fn codec() -> Codec {
    Codec {
        max_gain_tenths: 360,
        failed_reply: "[Failed]".to_string(),
        locked_reply: "[Locked]".to_string(),
        state_queries: 3,
    }
}

fn device(model: DeviceModel) -> ShureDevice {
    ShureDevice::from_hid_device(Ok(Some("S1".to_string())), model, codec())
}

/// What was asked of the outside world, in order.
#[derive(Debug, PartialEq)]
enum Did {
    Wrote(Packet),
    Read(i32),
    Parsed(Vec<u8>),
    ParsedPrefixed(Vec<u8>),
    AppliedResponse(Getter, [u8; 2], Vec<u8>),
    AppliedReply(TextCommand, String),
    ReadClock,
    FoundReply(TextCommand, String),
    Snapped(u16),
}

fn did(action: &Action<'_>) -> Did {
    match action {
        Action::Write { packet } => Did::Wrote(*packet),
        Action::Read { timeout_ms } => Did::Read(*timeout_ms),
        Action::Parse { report } => Did::Parsed(report.to_vec()),
        Action::ParsePrefixed { report } => Did::ParsedPrefixed(report.to_vec()),
        Action::ApplyResponse { getter, feature, value } => {
            Did::AppliedResponse(*getter, *feature, value.to_vec())
        }
        Action::ApplyReply { line, reply } => Did::AppliedReply(*line, reply.to_string()),
        Action::ReadClock => Did::ReadClock,
        Action::FindReply { line, received } => Did::FoundReply(*line, received.to_string()),
        Action::SnapGain { gain_tenths } => Did::Snapped(*gain_tenths),
    }
}

/// Hands the events back one after the other. Gives back what was done and how it ended.
fn drive(
    device: &mut ShureDevice,
    first: Step,
    events: Vec<Event>,
) -> (Vec<Did>, Option<Result<Output, DeviceError>>) {
    let mut done = Vec::new();
    let mut step = first;
    let mut events = events.into_iter();
    loop {
        let exchange = match step {
            StepOf::Done(outcome) => {
                assert!(events.next().is_none());
                return (done, Some(outcome));
            }
            StepOf::Pending(exchange) => exchange,
        };
        done.push(did(&exchange.action()));
        match events.next() {
            None => return (done, None),
            Some(event) => {
                assert!(exchange.awaits(&event));
                step = device.resume(exchange, event);
            }
        }
    }
}

fn binary(seq: u8, command: Command) -> Did {
    Did::Wrote(Packet::Binary { seq, command })
}

fn line(line: TextCommand) -> Did {
    Did::Wrote(Packet::Text { line })
}

fn wrote() -> Event {
    Event::Written(Ok(64))
}

fn read(bytes: &[u8]) -> Event {
    Event::Received(Ok(bytes.to_vec()))
}

fn applied(recognised: bool) -> Event {
    Event::Applied(AppliedOf {
        recognised,
        gain_tenths: 120,
        factory_serial: Some("F7".to_string()),
    })
}

/// A recognised response or reply that is not about the serial number.
fn applied_without_serial() -> Event {
    Event::Applied(AppliedOf { recognised: true, gain_tenths: 120, factory_serial: None })
}

fn reply(text: &str) -> Event {
    Event::Found(Some(text.to_string()))
}

/// The packet that an operation begins with.
fn first_packet(step: &Step) -> Packet {
    match step {
        StepOf::Pending(exchange) => match exchange.action() {
            Action::Write { packet } => packet,
            other => panic!("{other:?} is no write"),
        },
        StepOf::Done(outcome) => panic!("over with {outcome:?}"),
    }
}

fn sets(model: DeviceModel, setter: Setter, step: Step) {
    assert_eq!(
        first_packet(&step),
        Packet::Binary { seq: 0, command: Command::SetFeature(setter) },
        "{model:?}"
    );
}

fn says(step: Step, expected: TextCommand) {
    assert_eq!(first_packet(&step), Packet::Text { line: expected });
}

fn refused_on_mv7(step: Step) {
    assert_eq!(step, StepOf::Done(Err(DeviceError::NotOnMv7)));
}

#[test]
fn a_set_is_confirmed_with_the_next_number() {
    let mut d = device(DeviceModel::Mv6);
    let step = d.set_phantom(true);
    let (done, outcome) = drive(&mut d, step, vec![wrote(), wrote()]);
    assert_eq!(
        done,
        vec![
            binary(0, Command::SetFeature(Setter::Phantom(true))),
            binary(1, Command::Confirm),
        ]
    );
    assert_eq!(outcome, Some(Ok(Output::Accepted)));
}

#[test]
fn the_mv7_plus_is_drained_after_a_confirm() {
    let mut d = device(DeviceModel::Mv7Plus);
    let step = d.set_mute(true);
    let events = vec![
        wrote(),
        wrote(),
        read(&[9, 0, 0]),
        Event::Received(Err("gone".to_string())),
    ];
    let (done, outcome) = drive(&mut d, step, events);
    assert_eq!(
        done,
        vec![
            binary(0, Command::SetFeature(Setter::Mv7Mute(true))),
            binary(1, Command::Confirm),
            Did::Read(50),
            Did::Read(50),
        ]
    );
    assert_eq!(outcome, Some(Ok(Output::Accepted)));
}

#[test]
fn failed_writes_end_a_set() {
    let mut d = device(DeviceModel::Mvx2u);
    let step = d.set_eq_enable(true);
    let (done, outcome) = drive(&mut d, step, vec![Event::Written(Ok(0))]);
    assert_eq!(done.len(), 1);
    assert_eq!(outcome, Some(Err(DeviceError::WroteNothing)));

    let step = d.set_eq_enable(false);
    let events = vec![wrote(), Event::Written(Err("gone".to_string()))];
    let (done, outcome) = drive(&mut d, step, events);
    assert_eq!(
        done,
        vec![
            binary(1, Command::SetFeature(Setter::EqEnable(false))),
            binary(2, Command::Confirm),
        ]
    );
    assert_eq!(
        outcome,
        Some(Err(DeviceError::WriteFailed { reason: "gone".to_string() }))
    );
}

#[test]
fn numbers_go_around_after_255() {
    let mut d = device(DeviceModel::Mv6);
    for i in 0..200u16 {
        let step = d.set_mv6_gain_lock(true);
        let (done, _) = drive(&mut d, step, vec![wrote(), wrote()]);
        let seq = (2 * i % 256) as u8;
        assert_eq!(
            done,
            vec![
                binary(seq, Command::SetFeature(Setter::Mv6GainLock(true))),
                binary(seq.wrapping_add(1), Command::Confirm),
            ]
        );
    }
}

#[test]
fn a_refused_packet_takes_a_number() {
    let mut d = device(DeviceModel::Mv7);
    assert_eq!(d.set_phantom(true), StepOf::Done(Err(DeviceError::NotOnMv7)));
    d.model = DeviceModel::Mv6;
    let step = d.set_phantom(true);
    assert_eq!(
        first_packet(&step),
        Packet::Binary { seq: 1, command: Command::SetFeature(Setter::Phantom(true)) }
    );
}

#[test]
fn a_factory_reset_is_not_confirmed() {
    let mut d = device(DeviceModel::Mv7Plus);
    let step = d.factory_reset();
    let (done, outcome) = drive(&mut d, step, vec![wrote()]);
    assert_eq!(done, vec![binary(0, Command::FactoryReset)]);
    assert_eq!(outcome, Some(Ok(Output::Accepted)));
    refused_on_mv7(device(DeviceModel::Mv7).factory_reset());
}

#[test]
fn the_gain_is_clamped() {
    let over = 361;
    says(device(DeviceModel::Mv7).set_gain(over), TextCommand::SetGain { gain_tenths: 360 });
    for model in ALL {
        match model {
            DeviceModel::Mv7 => {
                says(device(model).set_gain(95), TextCommand::SetGain { gain_tenths: 95 })
            }
            DeviceModel::Mv7Plus => {
                sets(model, Setter::Mv7Gain(360), device(model).set_gain(over));
                sets(model, Setter::Mv7Gain(95), device(model).set_gain(95));
            }
            _ => {
                sets(model, Setter::Gain(360), device(model).set_gain(over));
                sets(model, Setter::Gain(95), device(model).set_gain(95));
            }
        }
    }
}

#[test]
fn settings_go_out_as_the_model_wants_them() {
    let position = MicPosition { code: 1 };
    let tone = AutoTone { code: 2 };
    let hpf = HpfFrequency { code: 3 };
    let preset = CompressorPreset { code: 4 };
    for model in ALL {
        let new = || device(model);
        match model {
            DeviceModel::Mv7 => {
                says(
                    new().set_mode(true, position, tone),
                    TextCommand::SetDspMode { mode: InputMode::Auto, position, tone },
                );
                says(
                    new().set_mode(false, position, tone),
                    TextCommand::SetDspMode { mode: InputMode::Manual, position, tone },
                );
                let auto = TextCommand::SetDspMode { mode: InputMode::Auto, position, tone };
                says(new().set_auto_position(position, tone), auto);
                says(new().set_auto_tone(position, tone), auto);
                says(new().set_mute(true), TextCommand::SetMute { muted: true });
                says(new().set_compressor(&preset), TextCommand::SetCompressor { preset });
                says(new().set_lock(true), TextCommand::SetLock { locked: true });
                says(new().set_mv6_monitor_mix(40), TextCommand::SetMonitorMix { mix: 40 });
                refused_on_mv7(new().set_hpf(&hpf));
                refused_on_mv7(new().set_limiter(true));
                refused_on_mv7(new().set_mv6_denoiser(true));
                refused_on_mv7(new().set_mv6_popper_stopper(true));
                refused_on_mv7(new().set_mv6_tone(-5));
            }
            DeviceModel::Mv7Plus => {
                sets(model, Setter::Mv7Mode { auto: true }, new().set_mode(true, position, tone));
                sets(model, Setter::Mv7Mute(true), new().set_mute(true));
                sets(model, Setter::Mv7Hpf(hpf), new().set_hpf(&hpf));
                sets(model, Setter::Mv7Limiter(true), new().set_limiter(true));
                sets(model, Setter::Mv7Compressor(preset), new().set_compressor(&preset));
                sets(model, Setter::Mv7Denoiser(true), new().set_mv6_denoiser(true));
                sets(model, Setter::Mv7PopperStopper(true), new().set_mv6_popper_stopper(true));
                sets(model, Setter::Mv7Tone(-5), new().set_mv6_tone(-5));
                sets(model, Setter::Mv7MicMix(40), new().set_mv6_monitor_mix(40));
                sets(model, Setter::Lock(true), new().set_lock(true));
                sets(model, Setter::AutoTone(tone), new().set_auto_tone(position, tone));
                sets(
                    model,
                    Setter::AutoPosition(position),
                    new().set_auto_position(position, tone),
                );
            }
            _ => {
                sets(model, Setter::Mode { auto: false }, new().set_mode(false, position, tone));
                sets(model, Setter::Mute(true), new().set_mute(true));
                sets(model, Setter::Hpf(hpf), new().set_hpf(&hpf));
                sets(model, Setter::Limiter(true), new().set_limiter(true));
                sets(model, Setter::Compressor(preset), new().set_compressor(&preset));
                sets(model, Setter::Mv6Denoiser(true), new().set_mv6_denoiser(true));
                sets(model, Setter::Mv6PopperStopper(true), new().set_mv6_popper_stopper(true));
                sets(model, Setter::Mv6Tone(-5), new().set_mv6_tone(-5));
                sets(model, Setter::Mv6Mix(40), new().set_mv6_monitor_mix(40));
                sets(model, Setter::Lock(true), new().set_lock(true));
                sets(model, Setter::AutoTone(tone), new().set_auto_tone(position, tone));
                sets(
                    model,
                    Setter::AutoPosition(position),
                    new().set_auto_position(position, tone),
                );
            }
        }
    }
}

#[test]
fn binary_settings_are_refused_on_the_mv7_alone() {
    let gain = AutoGain { code: 1 };
    let rtype = ReverbType { code: 2 };
    let rgb = [1, 2, 3];
    let color = (1, 2, 3);
    for model in ALL {
        let new = || device(model);
        let (red, green, blue) = color;
        let cases = vec![
            (Setter::AutoGain(gain), new().set_auto_gain(&gain)),
            (Setter::Phantom(true), new().set_phantom(true)),
            (Setter::Mix(9), new().set_monitor_mix(9)),
            (Setter::EqEnable(true), new().set_eq_enable(true)),
            (
                Setter::EqBandEnable { band: 2, enabled: true },
                new().set_eq_band_enable(2, true),
            ),
            (
                Setter::EqBandGain { band: 4, gain_tenths: -30, model },
                new().set_eq_band_gain(4, -30),
            ),
            (Setter::Mv6MuteBtnDisable(true), new().set_mv6_mute_btn_disable(true)),
            (Setter::Mv6GainLock(true), new().set_mv6_gain_lock(true)),
            (Setter::Mv7PlaybackMix(9), new().set_mv7_playback_mix(9)),
            (Setter::Mv7ReverbOutput(true), new().set_mv7_reverb_output(true)),
            (Setter::Mv7ReverbMonitor(true), new().set_mv7_reverb_monitor(true)),
            (Setter::Mv7ReverbType(rtype), new().set_mv7_reverb_type(&rtype)),
            (Setter::Mv7ReverbIntensity(7), new().set_mv7_reverb_intensity(7)),
            (
                Setter::Mv7LedBehavior(LedBehavior { code: 1 }),
                new().set_mv7_led_behavior(LedBehavior { code: 1 }),
            ),
            (
                Setter::Mv7LedBrightness(LedBrightness { code: 1 }),
                new().set_mv7_led_brightness(LedBrightness { code: 1 }),
            ),
            (
                Setter::Mv7LedLiveTheme(LedLiveTheme { code: 1 }),
                new().set_mv7_led_live_theme(LedLiveTheme { code: 1 }),
            ),
            (
                Setter::Mv7LedSolidTheme(LedSolidTheme { code: 1 }),
                new().set_mv7_led_solid_theme(LedSolidTheme { code: 1 }),
            ),
            (
                Setter::Mv7LedPulsingTheme(LedPulsingTheme { code: 1 }),
                new().set_mv7_led_pulsing_theme(LedPulsingTheme { code: 1 }),
            ),
            (
                Setter::Mv7LedSolidColor { red, green, blue },
                new().set_mv7_led_solid_color(rgb),
            ),
            (
                Setter::Mv7LedPulsingColor { red, green, blue },
                new().set_mv7_led_pulsing_color(rgb),
            ),
            (Setter::Mv7LedLiveEdge { red, green, blue }, new().set_mv7_led_live_edge(rgb)),
            (
                Setter::Mv7LedLiveMiddle { red, green, blue },
                new().set_mv7_led_live_middle(rgb),
            ),
            (
                Setter::Mv7LedLiveInterior { red, green, blue },
                new().set_mv7_led_live_interior(rgb),
            ),
        ];
        for (setter, step) in cases {
            if model == DeviceModel::Mv7 {
                refused_on_mv7(step);
            } else {
                sets(model, setter, step);
            }
        }
    }
}

#[test]
fn mv7_settings_are_refused_on_the_others() {
    let preset = EqPreset { code: 2 };
    for model in ALL {
        let steps = vec![
            (device(model).set_eq_preset(preset), TextCommand::SetEq { curve: preset }),
            (
                device(model).set_led_live_meter(true),
                TextCommand::SetLiveMeter { enabled: true },
            ),
            (
                device(model).set_led_night_mode(false),
                TextCommand::SetNightMode { enabled: false },
            ),
        ];
        for (step, expected) in steps {
            if model == DeviceModel::Mv7 {
                says(step, expected);
            } else {
                assert_eq!(step, StepOf::Done(Err(DeviceError::OnlyOnMv7 { model })));
            }
        }
    }
}

#[test]
fn a_reply_may_come_in_parts() {
    let mut d = device(DeviceModel::Mv7);
    let step = d.set_mute(true);
    let command = TextCommand::SetMute { muted: true };
    let events = vec![
        wrote(),
        Event::Now { ns: 5 },
        Event::Now { ns: 6 },
        read(&[]),
        Event::Now { ns: 200_000_000 },
        read(b"mic\0\0"),
        Event::Found(None),
        Event::Now { ns: 400_000_000 },
        read(b"Mute=on\n\0"),
        reply("micMute=on"),
    ];
    let (done, outcome) = drive(&mut d, step, events);
    assert_eq!(
        done,
        vec![
            line(command),
            Did::ReadClock,
            Did::ReadClock,
            Did::Read(200),
            Did::ReadClock,
            Did::Read(200),
            Did::FoundReply(command, "mic".to_string()),
            Did::ReadClock,
            Did::Read(200),
            Did::FoundReply(command, "micMute=on\n".to_string()),
        ]
    );
    assert_eq!(outcome, Some(Ok(Output::Accepted)));
}

#[test]
fn waiting_for_a_reply_ends_at_the_deadline() {
    let command = TextCommand::SetLock { locked: true };
    let mut d = device(DeviceModel::Mv7);
    let step = d.set_lock(true);
    let last = vec![
        wrote(),
        Event::Now { ns: 1_000 },
        Event::Now { ns: 1_500_000_999 },
        read(&[]),
        Event::Now { ns: 1_500_001_000 },
    ];
    let (done, outcome) = drive(&mut d, step, last);
    assert_eq!(done.len(), 5);
    assert_eq!(outcome, Some(Err(DeviceError::NoReply { command })));
}

#[test]
fn text_commands_fail_with_the_transport() {
    let mut d = device(DeviceModel::Mv7);
    let step = d.set_mute(true);
    let (_, outcome) = drive(&mut d, step, vec![Event::Written(Ok(0))]);
    assert_eq!(outcome, Some(Err(DeviceError::WroteNothing)));
    let step = d.set_mute(true);
    let events = vec![
        wrote(),
        Event::Now { ns: 0 },
        Event::Now { ns: 0 },
        Event::Received(Err("gone".to_string())),
    ];
    let (_, outcome) = drive(&mut d, step, events);
    assert_eq!(
        outcome,
        Some(Err(DeviceError::ReadFailed { reason: "gone".to_string() }))
    );
}

/// The events of a text command that is answered at once.
fn answered(text: &str) -> Vec<Event> {
    vec![
        wrote(),
        Event::Now { ns: 0 },
        Event::Now { ns: 1 },
        read(text.as_bytes()),
        reply(text),
    ]
}

#[test]
fn the_reply_decides_about_a_setting() {
    let command = TextCommand::SetMute { muted: false };
    let cases = vec![
        ("micMute=off", Ok(Output::Accepted)),
        ("[Failed]", Err(DeviceError::Rejected { command })),
        ("[Locked]", Err(DeviceError::Locked { command })),
    ];
    for (text, expected) in cases {
        let mut d = device(DeviceModel::Mv7);
        let step = d.set_mute(false);
        let (_, outcome) = drive(&mut d, step, answered(text));
        assert_eq!(outcome, Some(expected));
    }
    let d = device(DeviceModel::Mv7);
    assert_eq!(d.check_text_reply(command, &"ok".to_string()), Ok(()));
    assert_eq!(
        d.check_text_reply(command, &"[Locked]".to_string()),
        Err(DeviceError::Locked { command })
    );
}

#[test]
fn a_rejected_gain_is_read_back() {
    let command = TextCommand::SetGain { gain_tenths: 123 };
    let cases = vec![
        (true, Some(120), Ok(Output::Accepted)),
        (true, Some(130), Err(DeviceError::Rejected { command })),
        (false, None, Err(DeviceError::Rejected { command })),
    ];
    for (recognised, snapped, expected) in cases {
        let mut d = device(DeviceModel::Mv7);
        let step = d.set_gain(123);
        let mut events = answered("[Failed]");
        events.extend(answered("gain=12.0"));
        events.push(applied(recognised));
        if let Some(gain_tenths) = snapped {
            events.push(Event::Snapped { gain_tenths });
        }
        let (done, outcome) = drive(&mut d, step, events);
        assert_eq!(done[0], line(command));
        assert_eq!(done[5], line(TextCommand::GetGain));
        assert_eq!(
            done[10],
            Did::AppliedReply(TextCommand::GetGain, "gain=12.0".to_string())
        );
        if recognised {
            assert_eq!(done[11], Did::Snapped(123));
        }
        assert_eq!(outcome, Some(expected));
    }
}

#[test]
fn a_gain_that_is_not_rejected_is_not_read_back() {
    let command = TextCommand::SetGain { gain_tenths: 123 };
    for (text, expected) in [
        ("gain=12.0", Ok(Output::Accepted)),
        ("[Locked]", Err(DeviceError::Locked { command })),
    ] {
        let mut d = device(DeviceModel::Mv7);
        let step = d.set_gain(123);
        let (_, outcome) = drive(&mut d, step, answered(text));
        assert_eq!(outcome, Some(expected));
    }
}

#[test]
fn plans_cover_each_model() {
    assert_eq!(state_getters(DeviceModel::Mvx2u).len(), 26);
    assert_eq!(state_getters(DeviceModel::Mvx2uGen2).len(), 20);
    assert_eq!(state_getters(DeviceModel::Mv6).len(), 13);
    assert_eq!(state_getters(DeviceModel::Mv7).len(), 0);
    assert_eq!(state_getters(DeviceModel::Mv7Plus).len(), 28);
    let mvx2u = state_getters(DeviceModel::Mvx2u);
    assert_eq!(mvx2u[0], Getter::Lock);
    assert_eq!(mvx2u[16], Getter::EqBandEnable { band: 0 });
    assert_eq!(mvx2u[20], Getter::EqBandEnable { band: 4 });
    assert_eq!(mvx2u[21], Getter::EqBandGain { band: 0 });
    assert_eq!(mvx2u[25], Getter::EqBandGain { band: 4 });
    assert_eq!(
        state_getters(DeviceModel::Mv7Plus).last(),
        Some(&Getter::Mv7PlaybackMix)
    );
}

/// Reads the whole state, with `mix` as the value of the playback mix.
fn read_state(model: DeviceModel, mix: &[u8]) -> (Vec<Did>, Option<Result<Output, DeviceError>>) {
    let mut events = Vec::new();
    for getter in state_getters(model) {
        events.push(wrote());
        events.push(read(&[7, 8]));
        if getter == Getter::Mv7PlaybackMix {
            let response = ResponseOf { feature: [1, 2], value: mix.to_vec() };
            events.push(Event::ParsedPrefixed(Some((3, response))));
        } else {
            let response = ResponseOf { feature: [1, 2], value: vec![5] };
            events.push(Event::Parsed(Some(response)));
            events.push(applied(true));
        }
    }
    let mut d = device(model);
    let step = d.get_state();
    drive(&mut d, step, events)
}

#[test]
fn the_state_is_read_feature_by_feature() {
    for model in ALL {
        if model == DeviceModel::Mv7 {
            continue;
        }
        let (done, outcome) = read_state(model, &[50]);
        let mut expected = Vec::new();
        for (seq, getter) in state_getters(model).into_iter().enumerate() {
            expected.push(binary(seq as u8, Command::GetFeature(getter)));
            expected.push(Did::Read(200));
            if getter == Getter::Mv7PlaybackMix {
                expected.push(Did::ParsedPrefixed(vec![7, 8]));
            } else {
                expected.push(Did::Parsed(vec![7, 8]));
                expected.push(Did::AppliedResponse(getter, [1, 2], vec![5]));
            }
        }
        assert_eq!(done, expected);
        let playback_mix = if model == DeviceModel::Mv7Plus { Some(50) } else { None };
        assert_eq!(outcome, Some(Ok(Output::State { playback_mix })));
    }
}

#[test]
fn the_playback_mix_is_capped() {
    for (value, expected) in [
        (vec![99], Some(99)),
        (vec![100], Some(100)),
        (vec![101, 3], Some(100)),
        (vec![], None),
    ] {
        let (_, outcome) = read_state(DeviceModel::Mv7Plus, &value);
        assert_eq!(outcome, Some(Ok(Output::State { playback_mix: expected })));
    }
}

#[test]
fn failed_queries_are_passed_over() {
    let mut d = device(DeviceModel::Mv6);
    let step = d.get_state();
    let mut events = vec![
        Event::Written(Err("gone".to_string())),
        wrote(),
        Event::Received(Err("gone".to_string())),
        wrote(),
        read(&[]),
        wrote(),
        read(&[1]),
        Event::Parsed(None),
        wrote(),
        read(&[1]),
        Event::Parsed(Some(ResponseOf { feature: [0, 0], value: vec![] })),
        applied(false),
    ];
    for _ in 5..13 {
        events.push(Event::Written(Ok(0)));
    }
    let (done, outcome) = drive(&mut d, step, events);
    let sent = done.iter().filter(|d| matches!(d, Did::Wrote(_))).count();
    assert_eq!(sent, 13);
    assert_eq!(outcome, Some(Ok(Output::State { playback_mix: None })));
}

#[test]
fn the_mv7_state_is_read_line_by_line() {
    let mut d = device(DeviceModel::Mv7);
    let step = d.get_state();
    let mut events = Vec::new();
    for i in 0..3 {
        events.extend(answered(&format!("reply {i}")));
        events.push(applied(i != 1));
    }
    let (done, outcome) = drive(&mut d, step, events);
    for index in 0..3 {
        let query = TextCommand::StateQuery { index };
        assert_eq!(done[6 * index], line(query));
        assert_eq!(done[6 * index + 5], Did::AppliedReply(query, format!("reply {index}")));
    }
    assert_eq!(outcome, Some(Ok(Output::State { playback_mix: None })));
}

#[test]
fn a_silent_mv7_has_no_state() {
    let mut d = device(DeviceModel::Mv7);
    let step = d.get_state();
    let mut events = answered("reply 0");
    events.push(applied(true));
    events.extend(vec![wrote(), Event::Now { ns: 0 }, Event::Now { ns: 1_500_000_000 }]);
    let (_, outcome) = drive(&mut d, step, events);
    let command = TextCommand::StateQuery { index: 1 };
    assert_eq!(outcome, Some(Err(DeviceError::NoReply { command })));
}

#[test]
fn an_mv7_without_queries_has_its_state_at_once() {
    let mut d = device(DeviceModel::Mv7);
    d.codec.state_queries = 0;
    assert_eq!(d.get_state(), StepOf::Done(Ok(Output::State { playback_mix: None })));
}

#[test]
fn the_factory_serial_is_what_the_device_reports() {
    let found = Output::Serial { factory_serial: Some("F7".to_string()) };
    let none = || Some(Ok(Output::Serial { factory_serial: None }));

    let mut d = device(DeviceModel::Mvx2u);
    let step = d.read_factory_serial();
    let response = || Event::Parsed(Some(ResponseOf { feature: [1, 2], value: vec![70] }));
    let events = vec![wrote(), read(&[1]), response(), applied(true)];
    let (done, outcome) = drive(&mut d, step, events);
    assert_eq!(done[0], binary(0, Command::GetFeature(Getter::Serial)));
    assert_eq!(done[3], Did::AppliedResponse(Getter::Serial, [1, 2], vec![70]));
    assert_eq!(outcome, Some(Ok(found)));

    let step = d.read_factory_serial();
    let events = vec![wrote(), read(&[1]), response(), applied(false)];
    assert_eq!(drive(&mut d, step, events).1, none());
    let step = d.read_factory_serial();
    assert_eq!(drive(&mut d, step, vec![wrote(), read(&[])]).1, none());

    let mut d = device(DeviceModel::Mv7);
    let step = d.read_factory_serial();
    let mut events = answered("serial=F7");
    events.push(applied(true));
    let (done, outcome) = drive(&mut d, step, events);
    assert_eq!(done[0], line(TextCommand::GetSerial));
    assert_eq!(
        outcome,
        Some(Ok(Output::Serial { factory_serial: Some("F7".to_string()) }))
    );
    let step = d.read_factory_serial();
    assert_eq!(drive(&mut d, step, vec![Event::Written(Ok(0))]).1, none());
}

#[test]
fn a_serial_that_is_not_reported_is_none() {
    let none = Some(Ok(Output::Serial { factory_serial: None }));

    for model in ALL {
        let mut d = device(model);
        let step = d.read_factory_serial();
        let events = if model == DeviceModel::Mv7 {
            let mut events = answered("micMute=off");
            events.push(applied_without_serial());
            events
        } else {
            let stale = ResponseOf { feature: [1, 4], value: vec![1] };
            vec![wrote(), read(&[1]), Event::Parsed(Some(stale)), applied_without_serial()]
        };
        assert_eq!(drive(&mut d, step, events).1, none, "{model:?}");
    }
}

#[test]
fn a_device_passes_one_protocol_check() {
    for model in ALL {
        let d = device(model);
        if model == DeviceModel::Mv7 {
            assert_eq!(d.ensure_text_protocol(), Ok(()));
            assert_eq!(d.ensure_binary_protocol(), Err(DeviceError::NotOnMv7));
        } else {
            assert_eq!(d.ensure_text_protocol(), Err(DeviceError::OnlyOnMv7 { model }));
            assert_eq!(d.ensure_binary_protocol(), Ok(()));
        }
        assert_eq!(d, device(model));
    }
}

#[test]
fn zero_bytes_and_empty_reads_change_nothing() {
    let command = TextCommand::SetMute { muted: true };
    let now = |ns| Event::Now { ns };
    let plain = vec![
        wrote(),
        now(0),
        now(1),
        read(b"micMu"),
        Event::Found(None),
        now(2),
        read(b"te=on"),
        reply("micMute=on"),
    ];
    let padded = vec![
        wrote(),
        now(70),
        now(80),
        read(&[]),
        now(90),
        read(b"\0mic\0\0Mu\0"),
        Event::Found(None),
        now(100),
        read(&[]),
        now(110),
        read(&[]),
        now(120),
        read(b"te\0=on\0\0\0"),
        reply("micMute=on"),
    ];
    let searches = |done: Vec<Did>| -> Vec<Did> {
        done.into_iter().filter(|d| matches!(d, Did::FoundReply(..))).collect()
    };
    for events in [plain, padded] {
        let mut d = device(DeviceModel::Mv7);
        let step = d.set_mute(true);
        let (done, outcome) = drive(&mut d, step, events);
        assert_eq!(
            searches(done),
            vec![
                Did::FoundReply(command, "micMu".to_string()),
                Did::FoundReply(command, "micMute=on".to_string()),
            ]
        );
        assert_eq!(outcome, Some(Ok(Output::Accepted)));
    }
}

#[test]
fn text_commands_take_no_number() {
    let mut d = device(DeviceModel::Mv7);
    let step = d.set_mute(true);
    drive(&mut d, step, answered("micMute=on"));
    assert_eq!(d, device(DeviceModel::Mv7));

    let step = d.set_gain(100);
    let mut events = answered("[Failed]");
    events.extend(answered("gain=12.0"));
    events.push(applied(true));
    events.push(Event::Snapped { gain_tenths: 120 });
    drive(&mut d, step, events);
    assert_eq!(d, device(DeviceModel::Mv7));

    let step = d.read_factory_serial();
    drive(&mut d, step, vec![Event::Written(Err("gone".to_string()))]);
    assert_eq!(d, device(DeviceModel::Mv7));
}

#[test]
fn no_nul_gets_into_the_text() {
    let mut d = device(DeviceModel::Mv7);
    let step = d.set_mute(true);
    let events = vec![
        wrote(),
        Event::Now { ns: 0 },
        Event::Now { ns: 1 },
        read(&[0, 0xC3, 0, 0x41, 0xFF, 0]),
    ];
    let (done, _) = drive(&mut d, step, events);
    assert_eq!(
        done.last(),
        Some(&Did::FoundReply(
            TextCommand::SetMute { muted: true },
            "\u{FFFD}A\u{FFFD}".to_string()
        ))
    );
}

#[test]
fn operations_keep_the_device() {
    let mut d = device(DeviceModel::Mv7Plus);
    let step = d.set_mute(true);
    drive(&mut d, step, vec![wrote(), wrote(), read(&[]), read(&[])]);
    assert_eq!(d.model, DeviceModel::Mv7Plus);
    assert_eq!(d.serial_number, "S1");
    assert_eq!(d.codec, codec());
}

#[test]
fn an_opened_device_starts_afresh() {
    let d = device(DeviceModel::Mv6);
    assert_eq!(d.model, DeviceModel::Mv6);
    assert_eq!(d.serial_number, "S1");
    for serial in [Ok(None), Err("unreadable".to_string())] {
        let d = ShureDevice::from_hid_device(serial, DeviceModel::Mv6, codec());
        assert_eq!(d.serial_number, "(unknown)");
    }
}

#[test]
fn what_cannot_be_opened_is_an_error() {
    let target = |requested| Target {
        path: "p".to_string(),
        model: DeviceModel::Mv6,
        requested,
    };
    assert_eq!(
        ShureDevice::cannot_open(target(false), "busy".to_string()),
        DeviceError::CannotOpen { reason: "busy".to_string() }
    );
    assert_eq!(
        ShureDevice::cannot_open(target(true), "busy".to_string()),
        DeviceError::CannotOpenPath {
            path: "p".to_string(),
            reason: "busy".to_string(),
        }
    );
}

#[test]
fn exchanges_tell_which_event_they_await() {
    let mut d = device(DeviceModel::Mv6);
    let exchange: Exchange = match d.set_mute(true) {
        StepOf::Pending(exchange) => exchange,
        StepOf::Done(_) => unreachable!(),
    };
    assert!(exchange.awaits(&wrote()));
    assert!(!exchange.awaits(&read(&[])));
    assert!(!exchange.awaits(&applied(true)));
}

#[test]
fn text_is_looked_at_as_a_whole() {
    let goal = TextGoal::Serial;
    assert_eq!(
        ShureDevice::look_for_reply(goal, 9, "ab".to_string(), &"cd".to_string()),
        StepOf::Pending(Exchange::FindReply {
            goal,
            start_ns: 9,
            received: "abcd".to_string(),
        })
    );
}
