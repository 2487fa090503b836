use clap_facade::ArgMatches;
use clap_facade::Command;
use clap_facade::Value;

/// The outcome of the float-typed lookup, exactly as an unverified
/// host would compute it before calling `get_one`.
fn number_outcome(m: &ArgMatches, id: &str) -> Result<Option<u64>, ()> {
    m.inner
        .try_get_one::<f64>(id)
        .map(|a| a.map(|b| b.to_bits()))
        .map_err(|_| ())
}

fn matches_for(args: Vec<&str>) -> ArgMatches {
    let c = Command::new(String::from("t"))
        .arg_string(String::from("count"))
        .arg_flag(String::from("verbose"));
    c.try_get_matches_from(args.into_iter().map(String::from).collect())
        .expect("arguments should parse")
}

#[test]
fn boolean_flag_comes_back_as_bool() {
    let m = matches_for(vec!["t", "--verbose"]);
    let number = number_outcome(&m, "verbose");
    let r = m.get_one(String::from("verbose"), number);
    match r {
        Ok(Some(Value::Bool(b))) => assert!(b),
        _ => panic!("a set boolean flag must come back as a boolean"),
    }
}

#[test]
fn unset_boolean_flag_comes_back_false() {
    let m = matches_for(vec!["t"]);
    let number = number_outcome(&m, "verbose");
    let r = m.get_one(String::from("verbose"), number);
    match r {
        Ok(Some(Value::Bool(b))) => assert!(!b),
        _ => panic!("an unset boolean flag must come back as false"),
    }
}

#[test]
fn string_option_five_resolves_to_string() {
    let m = matches_for(vec!["t", "--count", "5"]);
    let number = number_outcome(&m, "count");
    let r = m.get_one(String::from("count"), number);
    match r {
        Ok(Some(Value::Str(s))) => assert_eq!(s, "5"),
        _ => panic!("a string option must come back as a string, not a number"),
    }
}

#[test]
fn absent_id_errors_rather_than_defaults() {
    let m = matches_for(vec!["t"]);
    let number = number_outcome(&m, "missing");
    let r = m.get_one(String::from("missing"), number);
    match r {
        Err(e) => assert_eq!(e, "Unable to convert the unmatches id from f64, String or bool"),
        _ => panic!("an absent id must come back as an error, not a value"),
    }
}

#[test]
fn declared_but_unset_option_is_none() {
    let m = matches_for(vec!["t"]);
    let number = number_outcome(&m, "count");
    let r = m.get_one(String::from("count"), number);
    assert!(matches!(r, Ok(None)));
}

#[test]
fn float_typed_option_comes_back_as_number() {
    let parse = |s: &str| s.parse::<f64>().map_err(|e| e.to_string());
    let inner = clap::Command::new("t")
        .arg(clap::Arg::new("ratio").long("ratio").value_parser(parse))
        .try_get_matches_from(vec!["t", "--ratio", "2.5"])
        .expect("arguments should parse");
    let m = ArgMatches { inner };
    let number = number_outcome(&m, "ratio");
    let r = m.get_one(String::from("ratio"), number);
    match r {
        Ok(Some(Value::NumberBits(bits))) => assert_eq!(f64::from_bits(bits), 2.5),
        _ => panic!("a float-typed option must come back as a number"),
    }
}

#[test]
fn get_one_string_reads_a_string_value() {
    let m = matches_for(vec!["t", "--count", "7"]);
    let r = m.get_one_string(String::from("count"));
    match r {
        Ok(Some(s)) => assert_eq!(s, "7"),
        _ => panic!("a set string option must come back as its string"),
    }
}

#[test]
fn get_one_string_unset_is_none() {
    let m = matches_for(vec!["t"]);
    let r = m.get_one_string(String::from("count"));
    assert!(matches!(r, Ok(None)));
}

#[test]
fn get_one_string_on_a_flag_errors() {
    let m = matches_for(vec!["t", "--verbose"]);
    let r = m.get_one_string(String::from("verbose"));
    match r {
        Err(e) => assert_eq!(e, "Unable to convert the unmatches id from String"),
        _ => panic!("a boolean flag read as a string must come back as an error"),
    }
}

#[test]
fn coerce_takes_the_string_leg_first() {
    let r = clap_facade::arg_matches::coerce(
        Ok(Some(String::from("5"))),
        Ok(Some(5.0f64.to_bits())),
        Ok(Some(true)),
    );
    match r {
        Ok(Some(Value::Str(s))) => assert_eq!(s, "5"),
        _ => panic!("the string leg must decide when it did not err"),
    }
}

#[test]
fn coerce_takes_the_number_leg_before_the_boolean_one() {
    let r = clap_facade::arg_matches::coerce(Err(()), Ok(Some(5.0f64.to_bits())), Ok(Some(true)));
    match r {
        Ok(Some(Value::NumberBits(bits))) => assert_eq!(f64::from_bits(bits), 5.0),
        _ => panic!("the number leg must decide when the string leg erred"),
    }
}

#[test]
fn coerce_falls_through_to_the_boolean_leg() {
    let r = clap_facade::arg_matches::coerce(Err(()), Err(()), Ok(Some(true)));
    assert!(matches!(r, Ok(Some(Value::Bool(true)))));
}

#[test]
fn coerce_with_every_leg_erring_gives_the_message() {
    let r = clap_facade::arg_matches::coerce(Err(()), Err(()), Err(()));
    match r {
        Err(e) => assert_eq!(e, "Unable to convert the unmatches id from f64, String or bool"),
        _ => panic!("the trial must err when every leg erred"),
    }
}

#[test]
fn coerce_keeps_a_matched_nothing() {
    let r = clap_facade::arg_matches::coerce(Ok(None), Ok(Some(5.0f64.to_bits())), Ok(Some(true)));
    assert!(matches!(r, Ok(None)));
}

#[test]
fn parse_with_no_arguments_succeeds() {
    let c = Command::new(String::from("t"));
    let r = c.try_get_matches_from(vec![String::from("t")]);
    assert!(r.is_ok());
}

#[test]
fn default_command_parses_like_an_unnamed_one() {
    let c = Command::default();
    let r = c.try_get_matches_from(vec![String::from("t")]);
    assert!(r.is_ok());
}

#[test]
fn unknown_flag_fails_the_parse() {
    let c = Command::new(String::from("t"));
    let r = c.try_get_matches_from(vec![String::from("t"), String::from("--nope")]);
    match r {
        Err(e) => assert!(!e.is_empty()),
        _ => panic!("an undeclared flag must fail the parse"),
    }
}
