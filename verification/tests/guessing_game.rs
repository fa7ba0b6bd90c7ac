use rust_book::guessing_game::{judge, play, respond, secret_number, Guess, Turn, Verdict};

#[test]
fn guess_in_range_is_accepted() {
    for value in [1, 2, 50, 99, 100] {
        let guess = Guess::new(value).expect("a number from 1 to 100");
        assert_eq!(guess.value(), value);
    }
}

#[test]
fn guess_out_of_range_is_turned_down_with_a_reason() {
    assert_eq!(
        Guess::new(0).err(),
        Some(String::from("Guess value must be between 1 and 100, got 0."))
    );
    assert_eq!(
        Guess::new(101).err(),
        Some(String::from("Guess value must be between 1 and 100, got 101."))
    );
    assert_eq!(
        Guess::new(-5).err(),
        Some(String::from("Guess value must be between 1 and 100, got -5."))
    );
    assert_eq!(
        Guess::new(i32::MIN).err(),
        Some(String::from("Guess value must be between 1 and 100, got -2147483648."))
    );
    assert_eq!(
        Guess::new(i32::MAX).err(),
        Some(String::from("Guess value must be between 1 and 100, got 2147483647."))
    );
}

#[test]
fn guess_is_compared_with_the_secret() {
    let guess = Guess::new(50).unwrap();
    assert_eq!(judge(&guess, 51), Verdict::TooSmall);
    assert_eq!(judge(&guess, 100), Verdict::TooSmall);
    assert_eq!(judge(&guess, 49), Verdict::TooBig);
    assert_eq!(judge(&guess, 1), Verdict::TooBig);
    assert_eq!(judge(&guess, 50), Verdict::Win);
}

#[test]
fn verdicts_have_their_words() {
    assert_eq!(Verdict::TooSmall.message(), "Too small...");
    assert_eq!(Verdict::TooBig.message(), "Too big!");
    assert_eq!(Verdict::Win.message(), "You win!!!");
}

#[test]
fn turn_follows_from_what_was_read() {
    assert!(matches!(respond(None, 10), Turn::NotANumber));
    match respond(Some(10), 10) {
        Turn::Judged(guess, verdict) => {
            assert_eq!(guess.value(), 10);
            assert_eq!(verdict, Verdict::Win);
        }
        _ => panic!("ten is a guess"),
    }
    match respond(Some(3), 10) {
        Turn::Judged(guess, verdict) => {
            assert_eq!(guess.value(), 3);
            assert_eq!(verdict, Verdict::TooSmall);
        }
        _ => panic!("three is a guess"),
    }
    match respond(Some(500), 10) {
        Turn::Rejected(why) => {
            assert_eq!(why, "Guess value must be between 1 and 100, got 500.")
        }
        _ => panic!("five hundred is no guess"),
    }
}

#[test]
fn turn_is_played_on_the_line_typed() {
    assert!(matches!(play("seven\n", 7), Turn::NotANumber));
    assert!(matches!(play("\n", 7), Turn::NotANumber));
    assert!(matches!(play(" 7 \n", 7), Turn::Judged(_, Verdict::Win)));
    assert!(matches!(play("8\n", 7), Turn::Judged(_, Verdict::TooBig)));
    assert!(matches!(play("+6\r\n", 7), Turn::Judged(_, Verdict::TooSmall)));
    match play("-3\n", 7) {
        Turn::Rejected(why) => assert_eq!(why, "Guess value must be between 1 and 100, got -3."),
        _ => panic!("a negative number is no guess"),
    }
    match play("0", 7) {
        Turn::Rejected(why) => assert_eq!(why, "Guess value must be between 1 and 100, got 0."),
        _ => panic!("zero is no guess"),
    }
}

#[test]
fn secret_number_can_be_guessed() {
    let mut seen = [false; 101];
    for _ in 0..2000 {
        let secret = secret_number();
        assert!(1 <= secret && secret <= 100);
        assert!(Guess::new(secret).is_ok());
        seen[secret as usize] = true;
    }
    // Two thousand draws that all gave the same number would be no draws at all.
    assert!(seen.iter().filter(|&&hit| hit).count() > 1);
}
