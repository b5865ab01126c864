use virtual_pet::pet::Pet;

#[test]
fn new_pet_is_half_full_and_moderately_happy() {
    let billy = Pet::new(String::from("Billy"));
    assert_eq!(billy.name, "Billy");
    assert_eq!(billy.happiness, 50);
    assert_eq!(billy.stomach, 50);
    assert_eq!(billy.stomach_percent(), 50);
    assert!(billy.obedient);
}

#[test]
fn one_meal_adds_ten_happiness_and_five_hundredths() {
    let mut billy = Pet::new(String::from("Billy"));
    billy.feed();
    assert_eq!(billy.happiness, 60);
    assert_eq!(billy.stomach, 55);
    assert_eq!(billy.name, "Billy");
    assert!(billy.obedient);
}

#[test]
fn meals_add_up_without_a_cap() {
    let mut billy = Pet::new(String::from("Billy"));
    let mut meals: u32 = 0;
    while meals < 1000 {
        assert!(billy.has_room());
        billy.feed();
        meals += 1;
        assert_eq!(billy.happiness as i64, 50 + 10 * meals as i64);
        assert_eq!(billy.stomach as i64, 50 + 5 * meals as i64);
    }
    assert_eq!(billy.happiness, 10050);
    assert_eq!(billy.stomach_percent(), 5050);
}

#[test]
fn room_for_a_meal_ends_where_a_counter_would_run_over() {
    let mut pet = Pet::new(String::from("Billy"));
    pet.happiness = i32::MAX - 10;
    assert!(pet.has_room());
    pet.feed();
    assert_eq!(pet.happiness, i32::MAX);
    assert!(!pet.has_room());
    pet.happiness = i32::MAX - 9;
    assert!(!pet.has_room());
    pet.happiness = -5;
    pet.stomach = u32::MAX - 5;
    assert!(pet.has_room());
    pet.feed();
    assert_eq!(pet.happiness, 5);
    assert_eq!(pet.stomach, u32::MAX);
    assert!(!pet.has_room());
}
