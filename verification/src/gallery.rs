//! The rule that guards the deletion of a gallery category.
use vstd::prelude::*;
use crate::auth::{rejects_with, Rejection};
use crate::text::{decimal, push_decimal, string_push_str};

verus! {

/// The answer when a gallery category still holds images.
pub open spec fn images_remain_message(count: u64) -> Seq<char> {
    "Cannot delete category with "@ + decimal(count as nat)
        + " associated image(s). Reassign them first."@
}

/// A gallery category may be deleted only when no image belongs to it.
pub fn check_gallery_category_deletable(image_count: u64) -> (r: Result<(), Rejection>)
    ensures
        r is Ok <==> image_count == 0,
        r matches Err(e) ==> rejects_with(e, 400, images_remain_message(image_count)),
{
    if image_count > 0 {
        let mut message = String::new();
        string_push_str(&mut message, "Cannot delete category with ");
        push_decimal(&mut message, image_count);
        string_push_str(&mut message, " associated image(s). Reassign them first.");
        assert(message@ =~= images_remain_message(image_count));
        return Err(Rejection { status: 400, message });
    }
    Ok(())
}

} // verus!
