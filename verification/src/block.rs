//! Blocks of memory on their way between the file and the device.

use vstd::prelude::*;

verus! {

/// A block of exactly `length` bytes made from what the file gave: the
/// bytes read, cut off at `length`, and zeros for what the file did not
/// give.
pub open spec fn fitted(bytes: Seq<u8>, length: int) -> Seq<u8> {
    Seq::new(
        length as nat,
        |i: int|
            if i < bytes.len() {
                bytes[i]
            } else {
                0u8
            },
    )
}

/// Makes a block of exactly `length` bytes from what the file gave: a short
/// read is filled up with zeros, a long one is cut off.
pub fn fit(bytes: Vec<u8>, length: usize) -> (block: Vec<u8>)
    ensures
        block@ == fitted(bytes@, length as int),
        block@.len() == length,
{
    let mut block: Vec<u8> = Vec::new();
    let mut i: usize = 0;
    while i < length
        invariant
            i <= length,
            block@ =~= fitted(bytes@, i as int),
        decreases length - i,
    {
        let byte: u8 = if i < bytes.len() {
            bytes[i]
        } else {
            0
        };
        block.push(byte);
        i += 1;
    }
    block
}

/// Where a block read from the device stops agreeing with what the file
/// gave for it, looking from `start` on: the first offset at which both
/// have a byte and the bytes differ; the length of the device's block if
/// one of the two ends before that; nowhere if both are the same.
pub open spec fn mismatch_from(device: Seq<u8>, file: Seq<u8>, start: int) -> Option<int>
    decreases device.len() - start,
{
    if start >= device.len() || start >= file.len() {
        if device.len() != file.len() {
            Some(device.len() as int)
        } else {
            None
        }
    } else if device[start] != file[start] {
        Some(start)
    } else {
        mismatch_from(device, file, start + 1)
    }
}

/// Where a block read from the device stops agreeing with the file.
pub open spec fn mismatch(device: Seq<u8>, file: Seq<u8>) -> Option<int> {
    mismatch_from(device, file, 0)
}

/// Compares a block read from the device with what the file gave for it,
/// and says where the two stop agreeing.
pub fn first_mismatch(device: &Vec<u8>, file: &Vec<u8>) -> (offset: Option<usize>)
    ensures
        match offset {
            Some(at) => mismatch(device@, file@) == Some(at as int) && at <= device@.len(),
            None => mismatch(device@, file@) is None,
        },
{
    let mut i: usize = 0;
    while i < device.len() && i < file.len()
        invariant
            i <= device@.len(),
            i <= file@.len(),
            mismatch(device@, file@) == mismatch_from(device@, file@, i as int),
        decreases device@.len() - i,
    {
        if device[i] != file[i] {
            return Some(i);
        }
        i += 1;
    }
    if device.len() != file.len() {
        Some(device.len())
    } else {
        None
    }
}

proof fn lemma_mismatch_from(device: Seq<u8>, file: Seq<u8>, start: int)
    requires
        0 <= start,
    ensures
        match mismatch_from(device, file, start) {
            Some(at) => {
                &&& start <= at || at == device.len()
                &&& 0 <= at <= device.len()
                &&& forall|j: int| start <= j < at && j < file.len() ==> device[j] == file[j]
                &&& at < device.len() && at < file.len() ==> device[at] != file[at]
                &&& at == device.len() || at < file.len()
                &&& at == device.len() ==> device.len() != file.len() || (at < file.len()
                    && start <= at)
            },
            None => {
                &&& device.len() == file.len()
                &&& forall|j: int| start <= j < device.len() ==> device[j] == file[j]
            },
        },
    decreases device.len() - start,
{
    if start >= device.len() || start >= file.len() {
    } else if device[start] != file[start] {
    } else {
        lemma_mismatch_from(device, file, start + 1);
    }
}

/// A block agrees with the file exactly when the two are the same bytes.
pub proof fn lemma_mismatch_none(device: Seq<u8>, file: Seq<u8>)
    ensures
        mismatch(device, file) is None <==> device == file,
{
    lemma_mismatch_from(device, file, 0);
    if mismatch(device, file) is None {
        assert(device =~= file);
    }
}

/// Where the device's block and the file differ first at `offset`, that
/// offset is reported.
pub proof fn lemma_mismatch_at_first_difference(device: Seq<u8>, file: Seq<u8>, offset: int)
    requires
        0 <= offset < device.len(),
        offset < file.len(),
        device[offset] != file[offset],
        forall|j: int| 0 <= j < offset ==> device[j] == file[j],
    ensures
        mismatch(device, file) == Some(offset),
{
    lemma_mismatch_from(device, file, 0);
}

/// Where the two agree as far as both go but one is longer, the length of
/// the device's block is reported.
pub proof fn lemma_mismatch_of_lengths(device: Seq<u8>, file: Seq<u8>)
    requires
        device.len() != file.len(),
        forall|j: int| 0 <= j < device.len() && j < file.len() ==> device[j] == file[j],
    ensures
        mismatch(device, file) == Some(device.len() as int),
{
    lemma_mismatch_from(device, file, 0);
}

/// A reported offset never lies past the end of the device's block.
pub proof fn lemma_mismatch_in_block(device: Seq<u8>, file: Seq<u8>)
    ensures
        mismatch(device, file) matches Some(at) ==> 0 <= at <= device.len(),
{
    lemma_mismatch_from(device, file, 0);
}

} // verus!
