use rns::model::User;
use rns::util::user_to_tag;

#[test]
fn tag_pads_the_discriminator_to_four_digits() {
    let user = User { name: "melon".to_string(), discriminator: 7 };
    assert_eq!(user_to_tag(&user), "melon#0007");
}

#[test]
fn tag_keeps_a_full_discriminator() {
    let user = User { name: "Some One".to_string(), discriminator: 9999 };
    assert_eq!(user_to_tag(&user), "Some One#9999");
}

#[test]
fn tag_of_the_largest_discriminator_is_not_cut() {
    let user = User { name: "x".to_string(), discriminator: u16::MAX };
    assert_eq!(user_to_tag(&user), "x#65535");
}

#[test]
fn tag_of_an_empty_name_is_the_discriminator_alone() {
    let user = User { name: String::new(), discriminator: 0 };
    assert_eq!(user_to_tag(&user), "#0000");
}
