use vstd::prelude::*;

verus! {

/// The error type in the signatures of std's `Read::read` and
/// `Write::write`, which the cursor and the sink implement; Verus refuses
/// those impls without this declaration. Nothing is stated of it.
#[verifier::external_type_specification]
#[verifier::external_body]
pub struct ExIoError(std::io::Error);

/// The eight bytes that open every encoded image.
pub open spec fn png_signature() -> Seq<u8> {
    seq![0x89u8, 0x50u8, 0x4Eu8, 0x47u8, 0x0Du8, 0x0Au8, 0x1Au8, 0x0Au8]
}

pub open spec fn has_png_signature(bytes: Seq<u8>) -> bool {
    bytes.len() >= 8 && bytes.subrange(0, 8) == png_signature()
}

/// Tells whether `image` starts with the signature of the wire format.
pub fn is_png(image: &[u8]) -> (r: bool)
    ensures
        r == has_png_signature(image@),
{
    if image.len() < 8 {
        return false;
    }
    let r = image[0] == 0x89 && image[1] == 0x50 && image[2] == 0x4E && image[3] == 0x47
        && image[4] == 0x0D && image[5] == 0x0A && image[6] == 0x1A && image[7] == 0x0A;
    proof {
        let head = image@.subrange(0, 8);
        if r {
            assert(head =~= png_signature());
        } else {
            if head == png_signature() {
                assert(head[0] == image@[0] && head[1] == image@[1] && head[2] == image@[2]
                    && head[3] == image@[3] && head[4] == image@[4] && head[5] == image@[5]
                    && head[6] == image@[6] && head[7] == image@[7]);
            }
        }
    }
    r
}

/// A read position in a fixed byte sequence, for the engine to pull from.
pub struct ImageData<'a> {
    data: &'a [u8],
    offset: usize,
}

impl<'a> ImageData<'a> {
    #[verifier::type_invariant]
    spec fn inv(&self) -> bool {
        self.offset <= self.data@.len()
    }

    pub closed spec fn source(&self) -> Seq<u8> {
        self.data@
    }

    pub closed spec fn position(&self) -> nat {
        self.offset as nat
    }

    /// A cursor at the start of `data`.
    pub fn new(data: &'a [u8]) -> (r: ImageData<'a>)
        ensures
            r.source() == data@,
            r.position() == 0,
    {
        ImageData { data, offset: 0 }
    }

    pub fn offset(&self) -> (n: usize)
        ensures
            n == self.position(),
            n <= self.source().len(),
    {
        proof {
            use_type_invariant(self);
        }
        self.offset
    }
}

/// Copies into `dest` as many of the cursor's remaining bytes as fit, moves
/// the cursor past them, and returns their number. The rest of `dest` is
/// left as it was: a short read is no error here. The engine takes a read
/// of no bytes as the end of its input, so truncated input still ends in
/// a read failure of the engine.
pub fn read_data(image_data: &mut ImageData, dest: &mut [u8]) -> (n: usize)
    ensures
        old(image_data).position() <= old(image_data).source().len(),
        n == if old(dest)@.len() <= old(image_data).source().len() - old(
            image_data,
        ).position() {
            old(dest)@.len() as int
        } else {
            old(image_data).source().len() - old(image_data).position()
        },
        final(image_data).source() == old(image_data).source(),
        final(image_data).position() == old(image_data).position() + n,
        final(dest)@.len() == old(dest)@.len(),
        forall|i: int|
            0 <= i < n ==> #[trigger] final(dest)@[i] == old(image_data).source()[old(
                image_data,
            ).position() + i],
        forall|i: int| n <= i < old(dest)@.len() ==> #[trigger] final(dest)@[i] == old(dest)@[i],
{
    proof {
        use_type_invariant(&*image_data);
    }
    let start = image_data.offset;
    let len = image_data.data.len();
    let avail = len - start;
    let n = if dest.len() <= avail {
        dest.len()
    } else {
        avail
    };
    let ghost before = dest@;
    let mut i: usize = 0;
    while i < n
        invariant
            i <= n,
            n <= dest@.len(),
            start + n <= image_data.data@.len(),
            len == image_data.data@.len(),
            image_data.offset == start,
            dest@.len() == before.len(),
            forall|k: int| 0 <= k < i ==> #[trigger] dest@[k] == image_data.data@[start + k],
            forall|k: int| n <= k < before.len() ==> #[trigger] dest@[k] == before[k],
        decreases n - i,
    {
        dest[i] = image_data.data[start + i];
        i = i + 1;
    }
    image_data.offset = start + n;
    n
}

impl<'a> std::io::Read for ImageData<'a> {
    fn read(&mut self, buf: &mut [u8]) -> std::io::Result<usize> {
        Ok(read_data(self, buf))
    }
}

/// Appends `data` to `dest`.
pub fn write_data_to_buf(dest: &mut Vec<u8>, data: &[u8])
    ensures
        final(dest)@ == old(dest)@ + data@,
{
    let ghost before = dest@;
    let mut i: usize = 0;
    while i < data.len()
        invariant
            i <= data@.len(),
            dest@ == before + data@.subrange(0, i as int),
        decreases data@.len() - i,
    {
        dest.push(data[i]);
        i = i + 1;
        assert(dest@ =~= before + data@.subrange(0, i as int));
    }
    assert(data@.subrange(0, data@.len() as int) =~= data@);
}

/// Flushing an in-memory buffer has nothing to do.
pub fn flush_data_to_buf(dest: &mut Vec<u8>)
    ensures
        final(dest)@ == old(dest)@,
{
}

/// Bytes that an encoder has written so far.
pub struct SinkBuffer {
    pub bytes: Vec<u8>,
}

impl SinkBuffer {
    pub fn new() -> (s: SinkBuffer)
        ensures
            s.bytes@.len() == 0,
    {
        SinkBuffer { bytes: Vec::new() }
    }
}

impl std::io::Write for SinkBuffer {
    fn write(&mut self, buf: &[u8]) -> std::io::Result<usize> {
        write_data_to_buf(&mut self.bytes, buf);
        Ok(buf.len())
    }

    fn flush(&mut self) -> std::io::Result<()> {
        flush_data_to_buf(&mut self.bytes);
        Ok(())
    }
}

} // verus!
