//! The paste adapter's selection rule.
//!
//! A paste event enumerates clipboard items; the adapter keeps only the items
//! whose kind is `file` and whose media type begins with `image/`, in
//! clipboard order, and submits their blobs. The platform hands kind and
//! media type over as plain strings, modelled here by `ClipboardItem`.

use vstd::prelude::*;

use crate::text::spec_has_prefix;
use crate::text::str_equal;
use crate::text::str_has_prefix;

verus! {

/// What the adapter reads of one clipboard item.
pub struct ClipboardItem {
    /// The item's kind, `file` for file-backed items.
    pub kind: String,
    /// The item's media type, such as `image/png`.
    pub mime: String,
}

/// Whether an item of this kind and media type is kept by the paste adapter.
pub open spec fn spec_is_image_file(kind: Seq<char>, mime: Seq<char>) -> bool {
    kind == "file"@ && spec_has_prefix(mime, "image/"@)
}

/// Whether the paste adapter keeps this item.
pub fn is_image_file_item(item: &ClipboardItem) -> (r: bool)
    ensures
        r == spec_is_image_file(item.kind@, item.mime@),
{
    let kind_ok = str_equal(item.kind.as_str(), "file");
    let mime_ok = str_has_prefix(item.mime.as_str(), "image/");
    kind_ok && mime_ok
}

/// The positions of the items the paste adapter keeps: exactly the file items
/// with an image media type, in clipboard order.
pub fn image_file_indices(items: &Vec<ClipboardItem>) -> (r: Vec<usize>)
    ensures
        forall|k: int|
            0 <= k < r@.len() ==> (#[trigger] r@[k]) < items@.len() && spec_is_image_file(
                items@[r@[k] as int].kind@,
                items@[r@[k] as int].mime@,
            ),
        forall|k1: int, k2: int| 0 <= k1 < k2 < r@.len() ==> r@[k1] < r@[k2],
        forall|j: int|
            0 <= j < items@.len() && spec_is_image_file(
                (#[trigger] items@[j]).kind@,
                items@[j].mime@,
            ) ==> exists|k: int| 0 <= k < r@.len() && r@[k] == j,
{
    let mut kept: Vec<usize> = Vec::new();
    let count = items.len();
    let mut i: usize = 0;
    while i < count
        invariant
            i <= count,
            count == items@.len(),
            forall|k: int|
                0 <= k < kept@.len() ==> (#[trigger] kept@[k]) < i && spec_is_image_file(
                    items@[kept@[k] as int].kind@,
                    items@[kept@[k] as int].mime@,
                ),
            forall|k1: int, k2: int| 0 <= k1 < k2 < kept@.len() ==> kept@[k1] < kept@[k2],
            forall|j: int|
                0 <= j < i && spec_is_image_file(
                    (#[trigger] items@[j]).kind@,
                    items@[j].mime@,
                ) ==> exists|k: int| 0 <= k < kept@.len() && kept@[k] == j,
        decreases count - i,
    {
        let ghost kept_before = kept@;
        if is_image_file_item(&items[i]) {
            kept.push(i);
        }
        proof {
            assert forall|j: int|
                0 <= j < i + 1 && spec_is_image_file(
                    (#[trigger] items@[j]).kind@,
                    items@[j].mime@,
                ) implies exists|k: int| 0 <= k < kept@.len() && kept@[k] == j by {
                if j < i {
                    let k = choose|k: int| 0 <= k < kept_before.len() && kept_before[k] == j;
                    assert(kept@[k] == j);
                } else {
                    assert(kept@[kept@.len() - 1] == j);
                }
            }
        }
        i += 1;
    }
    kept
}

} // verus!
