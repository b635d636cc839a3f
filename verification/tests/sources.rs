use rollz::source::thread_draw;
use rollz::{roll, Rollable, D10, D12, D20, D4, D6, D8};

#[test]
fn d4_shows_its_top_face_when_the_source_answers_the_upper_bound() {
    let d: D4 = D4::from_source(|_low: u8, high: u8| high);
    assert_eq!(4, d.val());
}

#[test]
fn d4_shows_1_when_the_source_answers_the_lower_bound() {
    let d: D4 = D4::from_source(|low: u8, _high: u8| low);
    assert_eq!(1, d.val());
}

#[test]
fn d4_asks_its_source_once_for_1_to_4() {
    let mut requests: Vec<(u8, u8)> = Vec::new();
    let d: D4 = D4::from_source(|low: u8, high: u8| {
        requests.push((low, high));
        2
    });
    assert_eq!(vec![(1u8, 4u8)], requests);
    assert_eq!(2, d.val());
}

#[test]
fn d4_shows_every_face_that_its_source_answers() {
    for answer in 1u8..=4u8 {
        let d: D4 = D4::from_source(|_low: u8, _high: u8| answer);
        assert_eq!(answer, d.val());
    }
}

#[test]
fn d6_shows_its_top_face_when_the_source_answers_the_upper_bound() {
    let d: D6 = D6::from_source(|_low: u8, high: u8| high);
    assert_eq!(6, d.val());
}

#[test]
fn d6_shows_1_when_the_source_answers_the_lower_bound() {
    let d: D6 = D6::from_source(|low: u8, _high: u8| low);
    assert_eq!(1, d.val());
}

#[test]
fn d6_asks_its_source_once_for_1_to_6() {
    let mut requests: Vec<(u8, u8)> = Vec::new();
    let d: D6 = D6::from_source(|low: u8, high: u8| {
        requests.push((low, high));
        2
    });
    assert_eq!(vec![(1u8, 6u8)], requests);
    assert_eq!(2, d.val());
}

#[test]
fn d6_shows_every_face_that_its_source_answers() {
    for answer in 1u8..=6u8 {
        let d: D6 = D6::from_source(|_low: u8, _high: u8| answer);
        assert_eq!(answer, d.val());
    }
}

#[test]
fn d8_shows_its_top_face_when_the_source_answers_the_upper_bound() {
    let d: D8 = D8::from_source(|_low: u8, high: u8| high);
    assert_eq!(8, d.val());
}

#[test]
fn d8_shows_1_when_the_source_answers_the_lower_bound() {
    let d: D8 = D8::from_source(|low: u8, _high: u8| low);
    assert_eq!(1, d.val());
}

#[test]
fn d8_asks_its_source_once_for_1_to_8() {
    let mut requests: Vec<(u8, u8)> = Vec::new();
    let d: D8 = D8::from_source(|low: u8, high: u8| {
        requests.push((low, high));
        2
    });
    assert_eq!(vec![(1u8, 8u8)], requests);
    assert_eq!(2, d.val());
}

#[test]
fn d8_shows_every_face_that_its_source_answers() {
    for answer in 1u8..=8u8 {
        let d: D8 = D8::from_source(|_low: u8, _high: u8| answer);
        assert_eq!(answer, d.val());
    }
}

#[test]
fn d10_shows_its_top_face_when_the_source_answers_the_upper_bound() {
    let d: D10 = D10::from_source(|_low: u8, high: u8| high);
    assert_eq!(10, d.val());
}

#[test]
fn d10_shows_1_when_the_source_answers_the_lower_bound() {
    let d: D10 = D10::from_source(|low: u8, _high: u8| low);
    assert_eq!(1, d.val());
}

#[test]
fn d10_asks_its_source_once_for_1_to_10() {
    let mut requests: Vec<(u8, u8)> = Vec::new();
    let d: D10 = D10::from_source(|low: u8, high: u8| {
        requests.push((low, high));
        2
    });
    assert_eq!(vec![(1u8, 10u8)], requests);
    assert_eq!(2, d.val());
}

#[test]
fn d10_shows_every_face_that_its_source_answers() {
    for answer in 1u8..=10u8 {
        let d: D10 = D10::from_source(|_low: u8, _high: u8| answer);
        assert_eq!(answer, d.val());
    }
}

#[test]
fn d12_shows_its_top_face_when_the_source_answers_the_upper_bound() {
    let d: D12 = D12::from_source(|_low: u8, high: u8| high);
    assert_eq!(12, d.val());
}

#[test]
fn d12_shows_1_when_the_source_answers_the_lower_bound() {
    let d: D12 = D12::from_source(|low: u8, _high: u8| low);
    assert_eq!(1, d.val());
}

#[test]
fn d12_asks_its_source_once_for_1_to_12() {
    let mut requests: Vec<(u8, u8)> = Vec::new();
    let d: D12 = D12::from_source(|low: u8, high: u8| {
        requests.push((low, high));
        2
    });
    assert_eq!(vec![(1u8, 12u8)], requests);
    assert_eq!(2, d.val());
}

#[test]
fn d12_shows_every_face_that_its_source_answers() {
    for answer in 1u8..=12u8 {
        let d: D12 = D12::from_source(|_low: u8, _high: u8| answer);
        assert_eq!(answer, d.val());
    }
}

#[test]
fn d20_shows_its_top_face_when_the_source_answers_the_upper_bound() {
    let d: D20 = D20::from_source(|_low: u8, high: u8| high);
    assert_eq!(20, d.val());
}

#[test]
fn d20_shows_1_when_the_source_answers_the_lower_bound() {
    let d: D20 = D20::from_source(|low: u8, _high: u8| low);
    assert_eq!(1, d.val());
}

#[test]
fn d20_asks_its_source_once_for_1_to_20() {
    let mut requests: Vec<(u8, u8)> = Vec::new();
    let d: D20 = D20::from_source(|low: u8, high: u8| {
        requests.push((low, high));
        2
    });
    assert_eq!(vec![(1u8, 20u8)], requests);
    assert_eq!(2, d.val());
}

#[test]
fn d20_shows_every_face_that_its_source_answers() {
    for answer in 1u8..=20u8 {
        let d: D20 = D20::from_source(|_low: u8, _high: u8| answer);
        assert_eq!(answer, d.val());
    }
}

#[test]
fn a_repeated_answer_gives_a_repeated_value() {
    let first: D6 = D6::from_source(|_low: u8, _high: u8| 4);
    let second: D6 = D6::from_source(|_low: u8, _high: u8| 4);
    assert_eq!(4, first.val());
    assert_eq!(first.val(), second.val());
}

#[test]
fn three_d6_each_show_the_answer_to_their_own_request() {
    let mut answers: Vec<u8> = vec![5, 1, 3];
    answers.reverse();
    let mut next = |_low: u8, _high: u8| answers.pop().unwrap_or(1);
    let d: (D6, D6, D6) = (
        D6::from_source(&mut next),
        D6::from_source(&mut next),
        D6::from_source(&mut next),
    );
    assert_eq!(5, d.0.val());
    assert_eq!(1, d.1.val());
    assert_eq!(3, d.2.val());
}

#[test]
fn d8_shows_the_answer_whatever_was_rolled_before() {
    for _ in 0..100 {
        let before: D8 = roll();
        assert!((1..=8).contains(&before.val()));
        let d: D8 = D8::from_source(|_low: u8, _high: u8| 7);
        assert_eq!(7, d.val());
    }
}

#[test]
fn a_thousand_d6_show_all_six_values_when_the_answers_cover_the_range() {
    let mut seen: [bool; 7] = [false; 7];
    let mut turn: u8 = 0;
    for _ in 0..1000 {
        let d: D6 = D6::from_source(|low: u8, high: u8| low + turn % (high - low + 1));
        turn = turn.wrapping_add(1);
        assert!((1..=6).contains(&d.val()));
        seen[usize::from(d.val())] = true;
    }
    assert_eq!([false, true, true, true, true, true, true], seen);
}

#[test]
fn a_die_rolled_from_the_thread_source_is_in_range() {
    for _ in 0..1000 {
        let d: D12 = D12::from_source(thread_draw);
        assert!((1..=12).contains(&d.val()));
    }
}

#[test]
fn thread_draw_from_a_range_of_one_value_gives_that_value() {
    for only in [0u8, 1, 17, 255] {
        assert_eq!(only, thread_draw(only, only));
    }
}

#[test]
fn thread_draw_stays_in_its_range_and_reaches_every_value() {
    let mut seen: [usize; 256] = [0; 256];
    for _ in 0..2000 {
        seen[usize::from(thread_draw(5, 9))] += 1;
    }
    for v in 0..256 {
        if 5 <= v && v <= 9 {
            assert!(seen[v] >= 1, "{} never came up", v);
        } else {
            assert_eq!(seen[v], 0, "{} came up", v);
        }
    }
}

#[test]
fn thread_draw_takes_the_whole_range_of_a_byte() {
    let mut low_half: usize = 0;
    for _ in 0..2000 {
        if thread_draw(0, 255) < 128 {
            low_half += 1;
        }
    }
    assert!(700 <= low_half && low_half <= 1300);
}
