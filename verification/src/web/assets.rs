//! Which pet pictures the store serves.

use vstd::prelude::*;
use crate::text::same_text;

verus! {

/// The image files the store serves; any other name is a 404.
pub open spec fn known_image_names() -> Seq<Seq<char>> {
    seq![
        "fish1.gif"@, "fish2.gif"@, "fish3.gif"@, "fish4.gif"@,
        "dog1.gif"@, "dog2.gif"@, "dog4.gif"@, "dog5.gif"@, "dog6.gif"@,
        "snake1.gif"@, "lizard1.gif"@, "cat1.gif"@, "cat2.gif"@, "bird1.gif"@,
        "banner_fish.gif"@, "banner_cats.gif"@, "banner_dogs.gif"@,
        "banner_reptiles.gif"@, "banner_birds.gif"@, "bird2.gif"@,
    ]
}

/// Whether `name` is one of the images the store serves.
pub fn is_known_image(name: &str) -> (r: bool)
    ensures
        r == known_image_names().contains(name@),
{
    let names: [&str; 20] = [
        "fish1.gif", "fish2.gif", "fish3.gif", "fish4.gif",
        "dog1.gif", "dog2.gif", "dog4.gif", "dog5.gif", "dog6.gif",
        "snake1.gif", "lizard1.gif", "cat1.gif", "cat2.gif", "bird1.gif",
        "banner_fish.gif", "banner_cats.gif", "banner_dogs.gif",
        "banner_reptiles.gif", "banner_birds.gif", "bird2.gif",
    ];
    let ghost spec_names = known_image_names();
    assert(names@.map_values(|s: &str| s@) =~= spec_names);
    let mut i: usize = 0;
    while i < 20
        invariant
            i <= 20,
            spec_names == known_image_names(),
            names@.map_values(|s: &str| s@) == spec_names,
            forall|j: int| 0 <= j < i ==> spec_names[j] != name@,
        decreases 20 - i,
    {
        assert(spec_names[i as int] == names@[i as int]@);
        if same_text(names[i], name) {
            assert(spec_names.contains(name@));
            return true;
        }
        i = i + 1;
    }
    false
}

} // verus!
