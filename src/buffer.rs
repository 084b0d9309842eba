use vstd::prelude::*;

verus! {

/// The rule that decides what a buffer holds.
#[derive(Clone, Copy, Debug, PartialEq, Eq, Structural)]
pub enum DataType {
    Random,
    Zeroes,
}

/// Why a byte source could not be set up.
#[derive(Clone, Copy, Debug, PartialEq, Eq, Structural)]
pub enum SourceError {
    /// The random generator could not be seeded from the operating system.
    GeneratorUnavailable,
}

#[verifier::external_type_specification]
#[verifier::external_body]
pub struct ExStdRng(rand::rngs::StdRng);

#[verifier::external_type_specification]
#[verifier::external_body]
pub struct ExRandError(rand::Error);

/// Relies on `rand::SeedableRng::from_rng` for `StdRng`, seeded from `OsRng`:
/// it either yields a freshly seeded generator or reports the entropy failure.
#[verifier::external_body]
fn seeded_rng() -> (r: Result<rand::rngs::StdRng, rand::Error>) {
    <rand::rngs::StdRng as rand::SeedableRng>::from_rng(rand::rngs::OsRng)
}

/// Relies on `rand::RngCore::fill_bytes` for `StdRng`: it overwrites the bytes
/// of the slice it is handed, which keeps its length, and does not fail.
#[verifier::external_body]
fn fill_random(rng: &mut rand::rngs::StdRng, data: &mut Vec<u8>)
    ensures
        final(data)@.len() == old(data)@.len(),
{
    rand::RngCore::fill_bytes(rng, data.as_mut_slice())
}

/// A sequence of `n` zero bytes.
pub open spec fn zeroes(n: nat) -> Seq<u8> {
    Seq::new(n, |i: int| 0u8)
}

/// A fixed-size buffer that is refilled in place according to its policy.
pub struct DataBuffer {
    data: Vec<u8>,
    data_type: DataType,
    rng: Option<rand::rngs::StdRng>,
}

impl View for DataBuffer {
    type V = Seq<u8>;

    closed spec fn view(&self) -> Seq<u8> {
        self.data@
    }
}

impl DataBuffer {
    /// The policy the buffer was made with.
    pub closed spec fn policy(&self) -> DataType {
        self.data_type
    }

    /// A zero-policy buffer holds only zeroes; a random one owns a generator.
    pub closed spec fn wf(&self) -> bool {
        &&& (self.data_type == DataType::Zeroes ==> self.data@ == zeroes(self.data@.len()))
        &&& (self.data_type == DataType::Random ==> self.rng.is_some())
    }

    /// Builds a buffer of `len` zero bytes from an already attempted generator
    /// seeding; the seeding only matters under the random policy.
    pub fn from_seeded(
        data_type: DataType,
        len: usize,
        seeded: Result<rand::rngs::StdRng, rand::Error>,
    ) -> (r: Result<DataBuffer, SourceError>)
        ensures
            r is Ok <==> (data_type == DataType::Zeroes || seeded is Ok),
            r is Err ==> r->Err_0 == SourceError::GeneratorUnavailable,
            r matches Ok(b) ==> {
                &&& b.wf()
                &&& b.policy() == data_type
                &&& b@ == zeroes(len as nat)
            },
    {
        let rng = match data_type {
            DataType::Zeroes => None,
            DataType::Random => match seeded {
                Ok(g) => Some(g),
                Err(_) => {
                    return Err(SourceError::GeneratorUnavailable);
                },
            },
        };
        let data: Vec<u8> = vec![0u8; len];
        assert(data@ =~= zeroes(len as nat));
        Ok(DataBuffer { data, data_type, rng })
    }

    /// Creates a buffer of `len` bytes with the given policy. A random buffer
    /// seeds its own generator once, here; that seeding may fail.
    pub fn new(data_type: DataType, len: usize) -> (r: Result<DataBuffer, SourceError>)
        ensures
            data_type == DataType::Zeroes ==> r is Ok,
            r is Err ==> r->Err_0 == SourceError::GeneratorUnavailable,
            r matches Ok(b) ==> {
                &&& b.wf()
                &&& b.policy() == data_type
                &&& b@ == zeroes(len as nat)
            },
    {
        match data_type {
            DataType::Zeroes => {
                let data: Vec<u8> = vec![0u8; len];
                assert(data@ =~= zeroes(len as nat));
                Ok(DataBuffer { data, data_type, rng: None })
            },
            DataType::Random => DataBuffer::from_seeded(data_type, len, seeded_rng()),
        }
    }

    /// The number of bytes each fill produces.
    pub fn len(&self) -> (r: usize)
        ensures
            r == self@.len(),
    {
        self.data.len()
    }

    /// Refills the buffer in place and lends it out. Under the zero policy
    /// nothing is rewritten: the buffer already holds zeroes.
    pub fn next_bytes(&mut self) -> (r: &[u8])
        requires
            old(self).wf(),
        ensures
            final(self).wf(),
            final(self).policy() == old(self).policy(),
            final(self)@.len() == old(self)@.len(),
            r@ == final(self)@,
            old(self).policy() == DataType::Zeroes ==> r@ == zeroes(old(self)@.len()),
    {
        match self.data_type {
            DataType::Random => {
                match &mut self.rng {
                    Some(g) => fill_random(g, &mut self.data),
                    None => {},
                }
            },
            DataType::Zeroes => {},
        }
        self.data.as_slice()
    }
}

} // verus!
