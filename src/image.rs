use vstd::prelude::*;
use crate::error::ImageLoadError;

verus! {

/// Guest memory after an image of `image.len()` bytes was placed at offset 0:
/// the image, then the bytes of `memory` beyond it, unchanged.
pub open spec fn loaded(memory: Seq<u8>, image: Seq<u8>) -> Seq<u8> {
    image + memory.subrange(image.len() as int, memory.len() as int)
}

/// Copies a flat guest image, byte for byte, to offset 0 of the guest memory
/// `memory` (guest-physical address 0). An image longer than the memory is
/// refused with `ImageTooLarge` before any byte is written.
pub fn load_image(memory: &mut [u8], image: &[u8]) -> (r: Result<(), ImageLoadError>)
    ensures
        r is Ok <==> image@.len() <= old(memory)@.len(),
        r is Ok ==> final(memory)@ == loaded(old(memory)@, image@),
        r is Err ==> r->Err_0 == ImageLoadError::ImageTooLarge,
        r is Err ==> final(memory)@ == old(memory)@,
{
    if image.len() > memory.len() {
        return Err(ImageLoadError::ImageTooLarge);
    }
    let ghost before = memory@;
    let mut i: usize = 0;
    while i < image.len()
        invariant
            image@.len() <= before.len(),
            memory@.len() == before.len(),
            i <= image@.len(),
            forall|j: int| 0 <= j < i ==> memory@[j] == image@[j],
            forall|j: int| i <= j < before.len() ==> memory@[j] == before[j],
        decreases image@.len() - i,
    {
        memory[i] = image[i];
        i = i + 1;
    }
    assert(memory@ =~= loaded(before, image@));
    Ok(())
}

} // verus!
