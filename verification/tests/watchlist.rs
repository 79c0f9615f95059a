use ntnu_course_bot::watchlist::{
    add_course, insert, is_valid_course_id, list_course, remove_course, str_precedes, strike,
    with_course, without_course, Edit,
};

fn texts(items: &[&str]) -> Vec<String> {
    items.iter().map(|s| s.to_string()).collect()
}

#[test]
fn with_course_twice_leaves_one_entry() {
    let once = with_course(Vec::new(), "1234".to_string());
    assert_eq!(once, texts(&["1234"]));
    let twice = with_course(once, "1234".to_string());
    assert_eq!(twice, texts(&["1234"]));
}

#[test]
fn with_course_keeps_the_list_sorted() {
    let list = with_course(texts(&["2000", "3000"]), "1000".to_string());
    assert_eq!(list, texts(&["1000", "2000", "3000"]));
    let list = with_course(list, "2500".to_string());
    assert_eq!(list, texts(&["1000", "2000", "2500", "3000"]));
    let list = with_course(list, "9".to_string());
    assert_eq!(list, texts(&["1000", "2000", "2500", "3000", "9"]));
}

#[test]
fn with_course_sorts_as_strings_sort() {
    let mut expected = texts(&["10", "9", "100", "1", "", "09"]);
    expected.push("5".to_string());
    expected.sort();
    expected.dedup();
    assert_eq!(with_course(texts(&["10", "9", "100", "1", "", "09"]), "5".to_string()), expected);
}

#[test]
fn with_course_mends_a_list_that_was_out_of_order() {
    assert_eq!(
        with_course(texts(&["3", "1", "3", "2", "1"]), "2".to_string()),
        texts(&["1", "2", "3"])
    );
}

#[test]
fn without_course_of_a_stranger_changes_nothing() {
    assert_eq!(without_course(texts(&["1", "2"]), "3".to_string()), texts(&["1", "2"]));
    assert_eq!(without_course(Vec::new(), "3".to_string()), Vec::<String>::new());
}

#[test]
fn without_course_takes_out_every_occurrence() {
    assert_eq!(without_course(texts(&["1", "2", "3"]), "2".to_string()), texts(&["1", "3"]));
    assert_eq!(without_course(texts(&["2", "1", "2"]), "2".to_string()), texts(&["1"]));
}

#[test]
fn strike_keeps_the_order_of_what_stays() {
    assert_eq!(
        strike(&texts(&["5", "1", "4", "2"]), &texts(&["4", "5", "7"])),
        texts(&["1", "2"])
    );
    assert_eq!(strike(&texts(&["5", "1"]), &Vec::new()), texts(&["5", "1"]));
}

#[test]
fn insert_finds_the_place() {
    assert_eq!(insert(Vec::new(), "b".to_string()), texts(&["b"]));
    assert_eq!(insert(texts(&["a", "c"]), "b".to_string()), texts(&["a", "b", "c"]));
    assert_eq!(insert(texts(&["a", "c"]), "c".to_string()), texts(&["a", "c"]));
    assert_eq!(insert(texts(&["b", "c"]), "a".to_string()), texts(&["a", "b", "c"]));
}

#[test]
fn str_precedes_is_the_order_of_strings() {
    let samples = ["", "0", "1", "10", "100", "2", "9", "a", "ab", "b", "é", "選", "選課"];
    for a in samples {
        for b in samples {
            assert_eq!(str_precedes(a, b), a < b);
        }
    }
}

#[test]
fn course_ids_are_digits_only() {
    assert!(is_valid_course_id("0123456789"));
    assert!(is_valid_course_id(""));
    assert!(!is_valid_course_id("12a4"));
    assert!(!is_valid_course_id("-12"));
    assert!(!is_valid_course_id("１２"));
}

#[test]
fn list_course_words_the_list() {
    assert_eq!(list_course(&Vec::new()), "No course registered!");
    assert_eq!(
        list_course(&texts(&["101", "202"])),
        "Current registered courses:\n101\n202"
    );
}

#[test]
fn add_course_refuses_what_is_no_course_id() {
    for bad in ["12a", "1 2", "-1", "１２", "12\n"] {
        let edit = add_course(texts(&["101", "202"]), bad);
        assert_eq!(
            edit,
            Edit::Refused {
                reply: format!(
                    "Course ID consists only by decimal digits! `{}` is not a valid one",
                    bad
                )
            }
        );
    }
}

#[test]
fn add_course_accepts_digits_and_says_so() {
    assert_eq!(
        add_course(texts(&["202"]), "101"),
        Edit::Accepted {
            courses: texts(&["101", "202"]),
            reply: "Course added for 101.".to_string()
        }
    );
}

#[test]
fn add_course_twice_leaves_one_entry() {
    let once = match add_course(Vec::new(), "1234") {
        Edit::Accepted { courses, .. } => courses,
        other => panic!("unexpected {:?}", other),
    };
    assert_eq!(once, texts(&["1234"]));
    assert_eq!(
        add_course(once, "1234"),
        Edit::Accepted { courses: texts(&["1234"]), reply: "Course added for 1234.".to_string() }
    );
}

#[test]
fn remove_course_refuses_what_is_no_course_id() {
    assert_eq!(
        remove_course(texts(&["101"]), "10x"),
        Edit::Refused {
            reply: "Course ID consists only by decimal digits! `10x` is not a valid one"
                .to_string()
        }
    );
}

#[test]
fn remove_course_of_a_non_member_writes_the_list_as_it_was() {
    assert_eq!(
        remove_course(texts(&["101", "202"]), "303"),
        Edit::Accepted {
            courses: texts(&["101", "202"]),
            reply: "Course removed for 303.".to_string()
        }
    );
    assert_eq!(
        remove_course(texts(&["101", "202"]), "101"),
        Edit::Accepted { courses: texts(&["202"]), reply: "Course removed for 101.".to_string() }
    );
}
