use vstd::prelude::*;

verus! {

/// The largest number of bytes that a disk takes from its image.
pub const IMAGE_LIMIT: usize = 512;

/// A boot disk: the place its image came from, and its bytes.
#[derive(Debug)]
pub struct Disk {
    pub path: String,
    pub data: Vec<u8>,
}

/// Why a disk could not be made.
#[derive(Debug, Clone, Copy, PartialEq, Eq, Structural)]
pub enum DiskReadError {
    /// There is no image.
    NoSuchFile,
}

impl Disk {
    /// The bytes of a disk of `size` bytes with the given image: the image
    /// from its start, as far as the size and the image limit allow, and
    /// zeros behind it.
    pub open spec fn contents(size: nat, image: Seq<u8>) -> Seq<u8> {
        Seq::new(
            size,
            |i: int|
                if i < image.len() && i < IMAGE_LIMIT {
                    image[i]
                } else {
                    0u8
                },
        )
    }

    /// A disk of `size` bytes for the image found at `path`, where `image`
    /// holds the bytes that were found there, or `None` if nothing was.
    pub fn new(size: usize, path: String, image: Option<Vec<u8>>) -> (result: Result<
        Self,
        DiskReadError,
    >)
        ensures
            image is None ==> result == Err::<Self, DiskReadError>(DiskReadError::NoSuchFile),
            image matches Some(bytes) ==> result matches Ok(disk) && disk.path == path
                && disk.data@ == Disk::contents(size as nat, bytes@),
    {
        match image {
            None => Err(DiskReadError::NoSuchFile),
            Some(bytes) => {
                let mut data = vec![0u8; size];
                let mut i: usize = 0;
                while i < size && i < bytes.len() && i < IMAGE_LIMIT
                    invariant
                        data@.len() == size,
                        forall|j: int| 0 <= j < i ==> data@[j] == bytes@[j],
                        forall|j: int| i <= j < size ==> data@[j] == 0,
                        i <= size,
                        i <= bytes@.len(),
                        i <= IMAGE_LIMIT,
                    decreases size - i,
                {
                    data[i] = bytes[i];
                    i += 1;
                }
                assert(data@ =~= Disk::contents(size as nat, bytes@));
                Ok(Self { path, data })
            },
        }
    }
}

} // verus!
