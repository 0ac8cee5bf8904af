//! Naming the author of a message.

use crate::model::{User, UserView};
use crate::text::{decimal, zero_padded, zero_padded_string};
use vstd::prelude::*;
use vstd::string::*;

verus! {

/// `name#discriminator`, the discriminator in four digits.
pub open spec fn user_tag(user: UserView) -> Seq<char> {
    user.name + "#"@ + zero_padded(decimal(user.discriminator as nat), 4)
}

/// The tag under which an author is known.
pub fn user_to_tag(user: &User) -> (tag: String)
    ensures
        tag@ == user_tag(user@),
{
    let mut tag = user.name.clone();
    tag.append("#");
    tag.append(zero_padded_string(user.discriminator as u128, 4).as_str());
    tag
}

} // verus!
