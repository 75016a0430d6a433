use keithley2230::command::Command;
use keithley2230::driver::{Action, Event, Keithley2230, Pending, Reply, MANUFACTURER, MODEL};
use keithley2230::error::Error;
use keithley2230::measure::{ChMeas, Meas};
use keithley2230::response::{is_whitespace, measurement_fields, measurement_triple, value_or};
use keithley2230::vocab::{Channel, State};

/// A supply on the bench: what it was sent, what it has selected, and what
/// it will answer.
struct Bench {
    selected: Channel,
    outputs: [State; 3],
    written: Vec<String>,
    reads: usize,
    fail_write: Option<usize>,
    fail_read: bool,
    answer: String,
    voltages: String,
    currents: String,
    powers: String,
    channel_answer: Option<String>,
}

fn slot(channel: Channel) -> usize {
    match channel {
        Channel::CH1 => 0,
        Channel::CH2 => 1,
        Channel::CH3 => 2,
    }
}

fn bench(selected: Channel) -> Bench {
    Bench {
        selected,
        outputs: [State::OFF, State::OFF, State::OFF],
        written: Vec::new(),
        reads: 0,
        fail_write: None,
        fail_read: false,
        answer: String::new(),
        voltages: "5.0, 3.3, 12.0".to_string(),
        currents: "0.5,0.25,1.5\n".to_string(),
        powers: "2.5,0.825,18.0".to_string(),
        channel_answer: None,
    }
}

fn bench_write(b: &mut Bench, line: &str) -> Result<(), String> {
    b.written.push(line.to_string());
    if b.fail_write == Some(b.written.len()) {
        return Err("bus fault".to_string());
    }
    match line {
        "INST?" => {
            b.answer = match &b.channel_answer {
                Some(text) => text.clone(),
                None => b.selected.to_string(),
            }
        }
        "INST CH1" => b.selected = Channel::CH1,
        "INST CH2" => b.selected = Channel::CH2,
        "INST CH3" => b.selected = Channel::CH3,
        "CHAN:OUTP ON" => b.outputs[slot(b.selected)] = State::ON,
        "CHAN:OUTP OFF" => b.outputs[slot(b.selected)] = State::OFF,
        "FETC:VOLT? ALL" => b.answer = b.voltages.clone(),
        "FETC:CURR? ALL" => b.answer = b.currents.clone(),
        "FETC:POW? ALL" => b.answer = b.powers.clone(),
        _ => {}
    }
    Ok(())
}

fn bench_read(b: &mut Bench) -> Result<String, String> {
    b.reads += 1;
    if b.fail_read {
        return Err("timeout".to_string());
    }
    Ok(b.answer.clone())
}

/// Carries an operation out against the bench, step by step.
fn run(
    driver: &mut Keithley2230<u8>,
    first: Command,
    b: &mut Bench,
) -> Result<Reply, Error<String>> {
    let mut action = Action::Write(first);
    loop {
        let event = match action {
            Action::Write(command) => match bench_write(b, &command.text()) {
                Ok(()) => Event::Written,
                Err(e) => Event::Failed(e),
            },
            Action::Read => match bench_read(b) {
                Ok(line) => Event::Line(line),
                Err(e) => Event::Failed(e),
            },
            Action::Finish(reply) => return Ok(reply),
            Action::Fail(e) => return Err(e),
        };
        action = driver.step(event).expect("the event answers the pending step");
    }
}

fn driver() -> Keithley2230<u8> {
    Keithley2230::new::<String>(Some(7u8)).unwrap()
}

fn triple(line: &str) -> (f32, f32, f32) {
    let fields = measurement_fields(line);
    let parsed: Vec<Option<f32>> = fields.iter().map(|f| f.parse::<f32>().ok()).collect();
    measurement_triple(&parsed, 0.0)
}

fn all_channels() -> [Channel; 3] {
    [Channel::CH1, Channel::CH2, Channel::CH3]
}

#[test]
fn select_command_names_the_channel() {
    assert_eq!(Command::Select(Channel::CH1).text(), "INST CH1");
    assert_eq!(Command::Select(Channel::CH2).text(), "INST CH2");
    assert_eq!(Command::Select(Channel::CH3).text(), "INST CH3");
}

#[test]
fn channel_tokens() {
    assert_eq!(Channel::CH1.as_ref(), "CH1");
    assert_eq!(Channel::CH2.as_ref(), "CH2");
    assert_eq!(Channel::CH3.to_string(), "CH3");
    assert_eq!(State::ON.as_ref(), "ON");
    assert_eq!(State::OFF.to_string(), "OFF");
}

#[test]
fn parse_channel_known_and_unknown() {
    assert_eq!(Channel::from_str::<String>("CH2"), Ok(Channel::CH2));
    assert_eq!(Channel::from_str::<String>("CH1"), Ok(Channel::CH1));
    assert_eq!(Channel::from_str::<String>("CH3"), Ok(Channel::CH3));
    assert_eq!(Channel::from_str::<String>("CH9"), Err(Error::StrumParseError()));
}

#[test]
fn parse_channel_is_exact() {
    for token in ["", "CH", "ch1", "CH1 ", " CH1", "CH1\n", "CH0", "CH4", "CH12", "Ch1", "1", "ÇH1"] {
        assert_eq!(Channel::from_str::<String>(token), Err(Error::StrumParseError()), "{:?}", token);
    }
}

#[test]
fn channel_round_trip() {
    for channel in all_channels() {
        assert_eq!(Channel::from_str::<String>(channel.as_ref()), Ok(channel));
    }
}

#[test]
fn state_round_trip() {
    assert_eq!(State::from_str::<String>(&State::ON.to_string()), Ok(State::ON));
    assert_eq!(State::from_str::<String>(&State::OFF.to_string()), Ok(State::OFF));
}

#[test]
fn state_alternate_spellings() {
    assert_eq!(State::from_str::<String>("1"), Ok(State::ON));
    assert_eq!(State::from_str::<String>("0"), Ok(State::OFF));
    assert_eq!(State::from_str::<String>("ON"), Ok(State::ON));
    assert_eq!(State::from_str::<String>("OFF"), Ok(State::OFF));
}

#[test]
fn state_unknown_token_is_an_error() {
    for token in ["", "on", "off", "On", "2", "ON ", "OF", "OFFF", "10", "O", "ONN", "0FF"] {
        assert_eq!(State::from_str::<String>(token), Err(Error::StrumParseError()), "{:?}", token);
    }
}

#[test]
fn defaults() {
    assert_eq!(Channel::default(), Channel::CH1);
    assert_eq!(State::default(), State::ON);
}

#[test]
fn triple_of_three_numbers() {
    assert_eq!(triple("1.0,2.0,3.0"), (1.0, 2.0, 3.0));
}

#[test]
fn triple_malformed_field_reads_zero() {
    assert_eq!(triple("1.0,bad,3.0"), (1.0, 0.0, 3.0));
}

#[test]
fn triple_wrong_count_reads_all_zero() {
    assert_eq!(triple("1.0,2.0"), (0.0, 0.0, 0.0));
    assert_eq!(triple("1.0,2.0,3.0,4.0"), (0.0, 0.0, 0.0));
    assert_eq!(triple(""), (0.0, 0.0, 0.0));
    assert_eq!(triple("1.0,2.0,3.0,"), (0.0, 0.0, 0.0));
}

#[test]
fn triple_trims_each_field() {
    assert_eq!(triple(" 1.5 ,\t2.25, 3.75\r\n"), (1.5, 2.25, 3.75));
    assert_eq!(triple(",,"), (0.0, 0.0, 0.0));
    assert_eq!(triple("1 0,2,3"), (0.0, 2.0, 3.0));
}

#[test]
fn triple_over_integers() {
    let parsed: Vec<Option<i32>> = vec![Some(4), None, Some(-6)];
    assert_eq!(measurement_triple(&parsed, 0), (4, 0, -6));
    let short: Vec<Option<i32>> = vec![Some(4), Some(5)];
    assert_eq!(measurement_triple(&short, -1), (-1, -1, -1));
    let none: Vec<Option<i32>> = Vec::new();
    assert_eq!(measurement_triple(&none, 9), (9, 9, 9));
    assert_eq!(value_or(Some(3), 8), 3);
    assert_eq!(value_or(None, 8), 8);
}

#[test]
fn fields_split_and_trim() {
    assert_eq!(measurement_fields("1.0,2.0,3.0"), vec!["1.0", "2.0", "3.0"]);
    assert_eq!(measurement_fields(""), vec![""]);
    assert_eq!(measurement_fields(","), vec!["", ""]);
    assert_eq!(measurement_fields("a,,b"), vec!["a", "", "b"]);
    assert_eq!(measurement_fields("  a b  ,\u{3000}c\u{a0}"), vec!["a b", "c"]);
    assert_eq!(measurement_fields("   "), vec![""]);
    assert_eq!(measurement_fields("x,"), vec!["x", ""]);
    assert_eq!(measurement_fields("é , ü"), vec!["é", "ü"]);
}

#[test]
fn fields_agree_with_split_and_trim_of_std() {
    let lines = [
        "",
        " ",
        ",",
        ",,,",
        "1.0,2.0,3.0",
        " 1.0 , 2.0 , 3.0 \n",
        "\t\t1e3,\u{2003}-4.5\u{2028},nan",
        "no comma at all",
        " , , ",
        "a\u{85},\u{1680}b,\u{feff}c",
    ];
    for line in lines {
        let expected: Vec<String> = line.split(',').map(|x| x.trim().to_string()).collect();
        assert_eq!(measurement_fields(line), expected, "{:?}", line);
    }
}

#[test]
fn whitespace_is_what_std_says() {
    let mut n: u32 = 0;
    while n <= 0x10FFFF {
        if let Some(c) = char::from_u32(n) {
            assert_eq!(is_whitespace(c), c.is_whitespace(), "U+{:04X}", n);
        }
        n += 1;
    }
}

#[test]
fn command_texts() {
    let apply = Command::Apply {
        channel: Channel::CH2,
        voltage: format!("{}", 5.0f32),
        current: format!("{}", 0.25f32),
    };
    assert_eq!(apply.text(), "APPL CH2, 5, 0.25");
    assert_eq!(Command::OutputEnable(State::ON).text(), "OUTP:ENAB ON");
    assert_eq!(Command::OutputEnable(State::OFF).text(), "OUTP:ENAB OFF");
    assert_eq!(Command::ChannelOutput(State::ON).text(), "CHAN:OUTP ON");
    assert_eq!(Command::ChannelOutput(State::OFF).text(), "CHAN:OUTP OFF");
    assert_eq!(Command::QueryChannel.text(), "INST?");
    assert_eq!(Command::Local.text(), "SYST:LOC");
    assert_eq!(Command::Remote.text(), "SYST:REM");
    assert_eq!(Command::FetchCurrent.text(), "FETC:CURR? ALL");
    assert_eq!(Command::FetchVoltage.text(), "FETC:VOLT? ALL");
    assert_eq!(Command::FetchPower.text(), "FETC:POW? ALL");
    assert_eq!(Command::Series(State::ON).text(), "OUTP:SER ON");
    assert_eq!(Command::Series(State::OFF).text(), "OUTP:SER OFF");
}

#[test]
fn parallel_coupling_texts() {
    assert_eq!(Command::Parallel(State::ON).text(), "OUTP:PAR CH1CH2");
    assert_eq!(Command::Parallel(State::OFF).text(), "OUTP:PAR OFF");
}

#[test]
fn apply_keeps_numbers_as_given() {
    let v: f32 = 0.001;
    let i: f32 = 300.0;
    let text = Command::Apply {
        channel: Channel::CH3,
        voltage: v.to_string(),
        current: i.to_string(),
    }
    .text();
    assert_eq!(text, "APPL CH3, 0.001, 300");
    let fields = measurement_fields(&text["APPL ".len()..]);
    assert_eq!(fields[1].parse::<f32>(), Ok(v));
    assert_eq!(fields[2].parse::<f32>(), Ok(i));
}

#[test]
fn simple_operations_write_one_command() {
    let mut d = driver();
    let mut b = bench(Channel::CH1);
    let first = d.set_channel(Channel::CH1, "12.5".to_string(), "1".to_string());
    assert_eq!(run(&mut d, first, &mut b), Ok(Reply::Done));
    let first = d.enable_output(State::ON);
    assert_eq!(run(&mut d, first, &mut b), Ok(Reply::Done));
    let first = d.select_channel(Channel::CH3);
    assert_eq!(run(&mut d, first, &mut b), Ok(Reply::Done));
    let first = d.front_panel_ctrl();
    assert_eq!(run(&mut d, first, &mut b), Ok(Reply::Done));
    let first = d.remote_ctrl();
    assert_eq!(run(&mut d, first, &mut b), Ok(Reply::Done));
    let first = d.set_paralel(State::ON);
    assert_eq!(run(&mut d, first, &mut b), Ok(Reply::Done));
    let first = d.set_paralel(State::OFF);
    assert_eq!(run(&mut d, first, &mut b), Ok(Reply::Done));
    let first = d.set_series(State::OFF);
    assert_eq!(run(&mut d, first, &mut b), Ok(Reply::Done));
    assert_eq!(
        b.written,
        vec![
            "APPL CH1, 12.5, 1",
            "OUTP:ENAB ON",
            "INST CH3",
            "SYST:LOC",
            "SYST:REM",
            "OUTP:PAR CH1CH2",
            "OUTP:PAR OFF",
            "OUTP:SER OFF",
        ]
    );
    assert_eq!(b.reads, 0);
    assert_eq!(b.selected, Channel::CH3);
    assert_eq!(d.pending(), Pending::Nothing);
}

#[test]
fn get_channel_decodes_the_answer() {
    for channel in all_channels() {
        let mut d = driver();
        let mut b = bench(channel);
        let first = d.get_channel();
        assert_eq!(first, Command::QueryChannel);
        assert_eq!(run(&mut d, first, &mut b), Ok(Reply::Selected(channel)));
        assert_eq!(b.written, vec!["INST?"]);
        assert_eq!(b.reads, 1);
    }
}

#[test]
fn get_channel_unknown_answer_is_a_decode_error() {
    let mut d = driver();
    let mut b = bench(Channel::CH1);
    b.channel_answer = Some("CH9".to_string());
    let first = d.get_channel();
    assert_eq!(run(&mut d, first, &mut b), Err(Error::StrumParseError()));
    assert_eq!(d.pending(), Pending::Nothing);
}

#[test]
fn enable_channel_restores_the_selection() {
    for a in all_channels() {
        for target in all_channels() {
            for state in [State::ON, State::OFF] {
                let mut d = driver();
                let mut b = bench(a);
                b.outputs = match state {
                    State::ON => [State::OFF, State::OFF, State::OFF],
                    State::OFF => [State::ON, State::ON, State::ON],
                };
                let before = b.outputs;
                let first = d.enable_channel(target, state);
                assert_eq!(run(&mut d, first, &mut b), Ok(Reply::Done));
                assert_eq!(
                    b.written,
                    vec![
                        "INST?".to_string(),
                        format!("INST {}", target.as_ref()),
                        format!("CHAN:OUTP {}", state.as_ref()),
                        format!("INST {}", a.as_ref()),
                    ]
                );
                assert_eq!(b.reads, 1);
                for other in all_channels() {
                    if other == target {
                        assert_eq!(b.outputs[slot(other)], state);
                    } else {
                        assert_eq!(b.outputs[slot(other)], before[slot(other)]);
                    }
                }
                let first = d.get_channel();
                assert_eq!(run(&mut d, first, &mut b), Ok(Reply::Selected(a)));
            }
        }
    }
}

#[test]
fn enable_channel_two_to_one_example() {
    let mut d = driver();
    let mut b = bench(Channel::CH1);
    let first = d.enable_channel(Channel::CH2, State::ON);
    assert_eq!(run(&mut d, first, &mut b), Ok(Reply::Done));
    assert_eq!(b.outputs, [State::OFF, State::ON, State::OFF]);
    let first = d.get_channel();
    assert_eq!(run(&mut d, first, &mut b), Ok(Reply::Selected(Channel::CH1)));
}

#[test]
fn enable_channel_failed_toggle_stops_the_sequence() {
    let mut d = driver();
    let mut b = bench(Channel::CH1);
    b.fail_write = Some(3);
    let first = d.enable_channel(Channel::CH2, State::ON);
    assert_eq!(
        run(&mut d, first, &mut b),
        Err(Error::VisaApiError("bus fault".to_string()))
    );
    assert_eq!(b.written, vec!["INST?", "INST CH2", "CHAN:OUTP ON"]);
    let selections = b.written.iter().filter(|line| line.starts_with("INST ")).count();
    assert_eq!(selections, 1);
    assert_eq!(b.selected, Channel::CH2);
    assert_eq!(b.outputs, [State::OFF, State::OFF, State::OFF]);
    assert_eq!(d.pending(), Pending::Nothing);
    assert_eq!(d.step::<String>(Event::Written), None);
}

#[test]
fn enable_channel_fails_at_each_step() {
    for at in 1..=4usize {
        let mut d = driver();
        let mut b = bench(Channel::CH3);
        b.fail_write = Some(at);
        let first = d.enable_channel(Channel::CH1, State::OFF);
        assert_eq!(
            run(&mut d, first, &mut b),
            Err(Error::VisaApiError("bus fault".to_string()))
        );
        assert_eq!(b.written.len(), at);
        assert_eq!(d.pending(), Pending::Nothing);
    }
    let mut d = driver();
    let mut b = bench(Channel::CH3);
    b.fail_read = true;
    let first = d.enable_channel(Channel::CH1, State::OFF);
    assert_eq!(run(&mut d, first, &mut b), Err(Error::VisaApiError("timeout".to_string())));
    assert_eq!(b.written, vec!["INST?"]);
}

#[test]
fn enable_channel_unknown_selection_is_a_decode_error() {
    let mut d = driver();
    let mut b = bench(Channel::CH1);
    b.channel_answer = Some("CH1\n".to_string());
    let first = d.enable_channel(Channel::CH2, State::ON);
    assert_eq!(run(&mut d, first, &mut b), Err(Error::StrumParseError()));
    assert_eq!(b.written, vec!["INST?"]);
    assert_eq!(b.outputs, [State::OFF, State::OFF, State::OFF]);
}

#[test]
fn read_one_quantity() {
    let mut d = driver();
    let mut b = bench(Channel::CH1);
    let first = d.read_i();
    assert_eq!(first, Command::FetchCurrent);
    let reply = run(&mut d, first, &mut b);
    assert_eq!(reply, Ok(Reply::Reading("0.5,0.25,1.5\n".to_string())));
    assert_eq!(triple("0.5,0.25,1.5\n"), (0.5, 0.25, 1.5));
    let first = d.read_v();
    assert_eq!(run(&mut d, first, &mut b), Ok(Reply::Reading("5.0, 3.3, 12.0".to_string())));
    let first = d.read_p();
    assert_eq!(run(&mut d, first, &mut b), Ok(Reply::Reading("2.5,0.825,18.0".to_string())));
    assert_eq!(b.written, vec!["FETC:CURR? ALL", "FETC:VOLT? ALL", "FETC:POW? ALL"]);
    assert_eq!(b.reads, 3);
}

#[test]
fn read_failure_is_handed_on() {
    let mut d = driver();
    let mut b = bench(Channel::CH1);
    b.fail_read = true;
    let first = d.read_v();
    assert_eq!(run(&mut d, first, &mut b), Err(Error::VisaApiError("timeout".to_string())));
    let mut b = bench(Channel::CH1);
    b.fail_write = Some(1);
    let first = d.read_v();
    assert_eq!(run(&mut d, first, &mut b), Err(Error::VisaApiError("bus fault".to_string())));
    assert_eq!(b.reads, 0);
}

#[test]
fn read_all_makes_three_round_trips() {
    let mut d = driver();
    let mut b = bench(Channel::CH1);
    let first = d.read_all();
    let reply = run(&mut d, first, &mut b).unwrap();
    assert_eq!(b.written, vec!["FETC:VOLT? ALL", "FETC:CURR? ALL", "FETC:POW? ALL"]);
    assert_eq!(b.reads, 3);
    let (voltage, current, power) = match reply {
        Reply::Readings { voltage, current, power } => (voltage, current, power),
        other => panic!("unexpected reply {:?}", other),
    };
    let meas = Meas::from_readings(triple(&voltage), triple(&current), triple(&power));
    assert_eq!(meas.ch1, ChMeas::new(5.0, 0.5, 2.5));
    assert_eq!(meas.ch2, ChMeas::new(3.3, 0.25, 0.825));
    assert_eq!(meas.ch3, ChMeas::new(12.0, 1.5, 18.0));
}

#[test]
fn read_all_stops_at_the_first_failure() {
    let mut d = driver();
    let mut b = bench(Channel::CH1);
    b.fail_write = Some(2);
    let first = d.read_all();
    assert_eq!(run(&mut d, first, &mut b), Err(Error::VisaApiError("bus fault".to_string())));
    assert_eq!(b.written, vec!["FETC:VOLT? ALL", "FETC:CURR? ALL"]);
    assert_eq!(b.reads, 1);
}

#[test]
fn measurement_record() {
    let ch = ChMeas::new(1.5f32, 0.5f32, 0.75f32);
    assert_eq!(ch.v, 1.5);
    assert_eq!(ch.i, 0.5);
    assert_eq!(ch.p, 0.75);
    let meas = Meas::from_readings((1, 2, 3), (4, 5, 6), (7, 8, 9));
    assert_eq!(meas.ch1, ChMeas::new(1, 4, 7));
    assert_eq!(meas.ch2, ChMeas::new(2, 5, 8));
    assert_eq!(meas.ch3, ChMeas::new(3, 6, 9));
    assert_eq!(Meas::<f32>::default().ch2, ChMeas::new(0.0, 0.0, 0.0));
}

#[test]
fn driver_needs_a_session() {
    let none: Option<u8> = None;
    assert!(matches!(
        Keithley2230::new::<String>(none),
        Err(Error::NoInstrumentFound())
    ));
    let d = Keithley2230::new::<String>(Some(9u8)).unwrap();
    assert_eq!(d.inner, 9);
    assert_eq!(d.pending(), Pending::Nothing);
    assert_eq!(MANUFACTURER, "Keithley Instruments");
    assert_eq!(MODEL, "2230");
}

#[test]
fn an_event_out_of_turn_changes_nothing() {
    let mut d = driver();
    assert_eq!(d.step::<String>(Event::Written), None);
    assert_eq!(d.step::<String>(Event::Line("CH1".to_string())), None);
    assert_eq!(d.step::<String>(Event::Failed("late".to_string())), None);
    let first = d.get_channel();
    assert_eq!(first.text(), "INST?");
    assert_eq!(d.pending(), Pending::Write);
    assert_eq!(d.step::<String>(Event::Line("CH1".to_string())), None);
    assert_eq!(d.pending(), Pending::Write);
    assert_eq!(d.step::<String>(Event::Written), Some(Action::Read));
    assert_eq!(d.pending(), Pending::Line);
    assert_eq!(d.step::<String>(Event::Written), None);
    assert_eq!(d.pending(), Pending::Line);
    assert_eq!(
        d.step::<String>(Event::Line("CH2".to_string())),
        Some(Action::Finish(Reply::Selected(Channel::CH2)))
    );
    assert_eq!(d.pending(), Pending::Nothing);
}

#[test]
fn starting_anew_drops_what_was_under_way() {
    let mut d = driver();
    let _ = d.enable_channel(Channel::CH2, State::ON);
    assert_eq!(d.step::<String>(Event::Written), Some(Action::Read));
    let first = d.select_channel(Channel::CH3);
    assert_eq!(first, Command::Select(Channel::CH3));
    assert_eq!(d.step::<String>(Event::Written), Some(Action::Finish(Reply::Done)));
}

#[test]
fn fields_joined_by_commas_are_the_line() {
    for line in ["", ",", "1.0,2.0,3.0", "a,,b,", "no-comma", ",,,,"] {
        let fields = measurement_fields(line);
        assert_eq!(fields.len(), line.matches(',').count() + 1);
        assert_eq!(fields.join(","), line);
        for field in &fields {
            assert!(!field.contains(','));
        }
    }
}

#[test]
fn trimmed_fields_have_no_white_space_around() {
    for field in measurement_fields(" a ,\tb\t,\u{2009}c d\u{205f}, ,e\n") {
        assert_eq!(field.trim(), field);
    }
}

#[test]
fn every_operation_ends_within_six_steps() {
    let mut d = driver();
    let firsts: Vec<fn(&mut Keithley2230<u8>) -> Command> = vec![
        |d| d.enable_channel(Channel::CH2, State::ON),
        |d| d.get_channel(),
        |d| d.read_all(),
        |d| d.read_v(),
        |d| d.remote_ctrl(),
    ];
    let expected = [5usize, 2, 6, 2, 1];
    for (start, steps) in firsts.iter().zip(expected) {
        let mut b = bench(Channel::CH1);
        let first = start(&mut d);
        assert!(run(&mut d, first, &mut b).is_ok());
        assert_eq!(b.written.len() + b.reads, steps);
        assert!(steps <= 6);
    }
}
