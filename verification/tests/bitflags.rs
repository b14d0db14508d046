use bitprint::bitflags::{bit_variants, BitVariantsError};

#[test]
fn test_bit_variants_macro() {
    let names = vec![
        String::from("FLAG_A"),
        String::from("FLAG_B"),
        String::from("FLAG_C"),
    ];
    let consts = bit_variants(&names, 64).unwrap();
    assert_eq!(consts[0].value, 1 << 0);
    assert_eq!(consts[1].value, 1 << 1);
    assert_eq!(consts[2].value, 1 << 2);
}

#[test]
fn test_large_bit_variants() {
    let names = vec![
        String::from("LARGE_FLAG_1"),
        String::from("LARGE_FLAG_2"),
        String::from("LARGE_FLAG_3"),
    ];
    let consts = bit_variants(&names, 128).unwrap();
    assert_eq!(consts[0].value, 1 << 0);
    assert_eq!(consts[1].value, 1 << 1);
    assert_eq!(consts[2].value, 1 << 2);
}

#[test]
fn three_names_give_one_two_four() {
    let names = vec![String::from("A"), String::from("B"), String::from("C")];
    let consts = bit_variants(&names, 64).unwrap();
    assert_eq!(consts.len(), 3);
    assert_eq!(consts[0].name, "A");
    assert_eq!(consts[0].value, 1);
    assert_eq!(consts[1].name, "B");
    assert_eq!(consts[1].value, 2);
    assert_eq!(consts[2].name, "C");
    assert_eq!(consts[2].value, 4);
}

#[test]
fn single_name_gives_one() {
    let names = vec![String::from("A")];
    let consts = bit_variants(&names, 64).unwrap();
    assert_eq!(consts.len(), 1);
    assert_eq!(consts[0].name, "A");
    assert_eq!(consts[0].value, 1);
}

#[test]
fn duplicate_name_is_rejected() {
    let names = vec![String::from("A"), String::from("A")];
    let err = bit_variants(&names, 64).unwrap_err();
    assert_eq!(err, BitVariantsError::DuplicateName);
}

#[test]
fn duplicate_later_in_list_is_rejected() {
    let names = vec![
        String::from("A"),
        String::from("B"),
        String::from("C"),
        String::from("B"),
    ];
    let err = bit_variants(&names, 64).unwrap_err();
    assert_eq!(err, BitVariantsError::DuplicateName);
}

#[test]
fn empty_list_is_rejected() {
    let names: Vec<String> = vec![];
    let err = bit_variants(&names, 64).unwrap_err();
    assert_eq!(err, BitVariantsError::EmptyNames);
}

#[test]
fn more_names_than_width_is_rejected() {
    let names = vec![String::from("A"), String::from("B"), String::from("C")];
    let err = bit_variants(&names, 2).unwrap_err();
    assert_eq!(err, BitVariantsError::WidthExceeded);
}

#[test]
fn more_names_than_sixty_four_is_rejected() {
    let names: Vec<String> = (0..65).map(|i| format!("F{}", i)).collect();
    let err = bit_variants(&names, 128).unwrap_err();
    assert_eq!(err, BitVariantsError::WidthExceeded);
}

#[test]
fn sixty_four_names_fill_the_width() {
    let names: Vec<String> = (0..64).map(|i| format!("F{}", i)).collect();
    let consts = bit_variants(&names, 64).unwrap();
    assert_eq!(consts.len(), 64);
    assert_eq!(consts[0].value, 1);
    assert_eq!(consts[63].value, 1u64 << 63);
    for i in 0..64 {
        assert_eq!(consts[i].name, format!("F{}", i));
        assert_eq!(consts[i].value, 1u64 << i);
    }
}

#[test]
fn generated_values_are_pairwise_distinct_powers_of_two() {
    let names: Vec<String> = (0..64).map(|i| format!("F{}", i)).collect();
    let consts = bit_variants(&names, 64).unwrap();
    for i in 0..consts.len() {
        let v = consts[i].value;
        assert!(v != 0);
        assert_eq!(v & (v - 1), 0);
        for j in 0..consts.len() {
            if i != j {
                assert!(consts[i].value != consts[j].value);
            }
        }
    }
}

#[test]
fn duplicate_wins_over_width() {
    let names = vec![String::from("A"), String::from("A"), String::from("B")];
    let err = bit_variants(&names, 2).unwrap_err();
    assert_eq!(err, BitVariantsError::DuplicateName);
}
