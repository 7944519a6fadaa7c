//! The sender's side of the connection: what to write for a batch, what a
//! read chunk says, and whether the next call has to connect first. The
//! socket itself lives with the caller, which performs each plan and
//! reports back how it went.

use crate::erro::ConnectionError;
use vstd::prelude::*;
use vstd::utf8::{decode_utf8, valid_utf8};

verus! {

/// Read and write timeout set on a fresh connection, in seconds.
pub const CONNECT_TIMEOUT_SECS: u64 = 15;

/// Read timeout of one poll for a response, in milliseconds.
pub const READ_TIMEOUT_MS: u64 = 100;

/// Size of the zero-filled chunk that one poll reads into.
pub const CHUNK_SIZE: usize = 1024;

/// The low byte of a sample in two's complement.
pub open spec fn low_byte(sample: i16) -> u8 {
    ((sample as int) % 256) as u8
}

/// The high byte of a sample in two's complement.
pub open spec fn high_byte(sample: i16) -> u8 {
    (((sample as int) / 256) % 256) as u8
}

/// The samples as bytes on the wire: two per sample, low byte first, in
/// sample order, nothing before, between or after.
pub open spec fn wire_bytes(samples: Seq<i16>) -> Seq<u8> {
    Seq::new(
        2 * samples.len(),
        |i: int|
            if i % 2 == 0 {
                low_byte(samples[i / 2])
            } else {
                high_byte(samples[i / 2])
            },
    )
}

/// `bytes` without the zero bytes at its end.
pub open spec fn strip_trailing_zeros(bytes: Seq<u8>) -> Seq<u8>
    decreases bytes.len(),
{
    if bytes.len() > 0 && bytes.last() == 0 {
        strip_trailing_zeros(bytes.drop_last())
    } else {
        bytes
    }
}

/// What the caller has to do for a send.
pub struct SendPlan {
    /// No connection stands: establish one, with `CONNECT_TIMEOUT_SECS` as
    /// its read and write timeout, before writing.
    pub connect: bool,
    /// The bytes to write in full and then flush.
    pub payload: Vec<u8>,
}

/// How the caller's attempt at a `SendPlan` went.
#[derive(Clone, Copy, Debug, PartialEq, Eq, Structural)]
pub enum SendOutcome {
    /// Every byte was written and flushed.
    Sent,
    /// The connection could not be established.
    ConnectFailed,
    /// Writing or flushing failed.
    WriteFailed,
}

/// What the caller has to do for a read.
#[derive(Clone, Copy, Debug, PartialEq, Eq, Structural)]
pub struct ReadPlan {
    /// No connection stands: establish one first.
    pub connect: bool,
    /// The read timeout to set for this read.
    pub timeout_ms: u64,
    /// The size of the zero-filled chunk to read into.
    pub chunk_size: usize,
}

/// How the caller's attempt at a `ReadPlan` went.
pub enum ReadOutcome {
    /// The connection could not be established.
    ConnectFailed,
    /// Nothing arrived within the timeout.
    TimedOut,
    /// Setting the timeout or reading failed otherwise.
    Failed,
    /// The read returned: `read` bytes were stored at the start of `chunk`,
    /// the rest of which is still zero.
    Chunk { chunk: Vec<u8>, read: usize },
}

/// Whether a connection stands after a read. A failed connect leaves none;
/// a read that failed outright, or that found the connection closed by the
/// peer, discards the one there was; a timeout says only that nothing has
/// arrived.
pub open spec fn connected_after_read(outcome: ReadOutcome) -> bool {
    match outcome {
        ReadOutcome::ConnectFailed => false,
        ReadOutcome::TimedOut => true,
        ReadOutcome::Failed => false,
        ReadOutcome::Chunk { chunk, read } => read > 0,
    }
}

/// What a read comes to, for every outcome of the attempt.
pub open spec fn read_result(outcome: ReadOutcome) -> Result<Seq<char>, ConnectionError> {
    match outcome {
        ReadOutcome::ConnectFailed => Err(ConnectionError::ConnectFailed),
        ReadOutcome::TimedOut => Err(ConnectionError::TimedOut),
        ReadOutcome::Failed => Err(ConnectionError::ReadFailed),
        ReadOutcome::Chunk { chunk, read } => if read == 0 {
            Err(ConnectionError::Closed)
        } else if valid_utf8(strip_trailing_zeros(chunk@)) {
            Ok(decode_utf8(strip_trailing_zeros(chunk@)))
        } else {
            Err(ConnectionError::InvalidEncoding)
        },
    }
}

/// `String::from_utf8`: the text that the bytes encode, where they are
/// UTF-8, and nothing where they are not.
#[verifier::external_body]
fn utf8_to_string(bytes: Vec<u8>) -> (text: Option<String>)
    ensures
        text is Some <==> valid_utf8(bytes@),
        text matches Some(s) ==> s@ == decode_utf8(bytes@),
{
    String::from_utf8(bytes).ok()
}

/// The two bytes of one sample, low byte first.
fn sample_bytes(sample: i16) -> (bytes: (u8, u8))
    ensures
        bytes.0 == low_byte(sample),
        bytes.1 == high_byte(sample),
{
    let unsigned: i32 = if sample < 0 {
        sample as i32 + 65536
    } else {
        sample as i32
    };
    ((unsigned % 256) as u8, (unsigned / 256) as u8)
}

/// Serialises the samples as little-endian 16-bit values, concatenated.
pub fn encode_samples(samples: &[i16]) -> (bytes: Vec<u8>)
    ensures
        bytes@ == wire_bytes(samples@),
{
    let mut bytes: Vec<u8> = Vec::new();
    let mut i: usize = 0;
    while i < samples.len()
        invariant
            i <= samples.len(),
            bytes@ == wire_bytes(samples@.take(i as int)),
        decreases samples.len() - i,
    {
        let pair = sample_bytes(samples[i]);
        bytes.push(pair.0);
        bytes.push(pair.1);
        i += 1;
        assert(bytes@ == wire_bytes(samples@.take(i as int)));
    }
    assert(samples@.take(i as int) == samples@);
    bytes
}

/// Removes the zero padding at the end of a chunk.
pub fn strip_padding(chunk: Vec<u8>) -> (bytes: Vec<u8>)
    ensures
        bytes@ == strip_trailing_zeros(chunk@),
        bytes@.len() <= chunk@.len(),
        bytes@ == chunk@.take(bytes@.len() as int),
        bytes@.len() > 0 ==> bytes@.last() != 0,
        forall|i: int| bytes@.len() <= i < chunk@.len() ==> chunk@[i] == 0,
{
    let mut bytes = chunk;
    while bytes.len() > 0 && bytes[bytes.len() - 1] == 0
        invariant
            strip_trailing_zeros(bytes@) == strip_trailing_zeros(chunk@),
            bytes@.len() <= chunk@.len(),
            bytes@ == chunk@.take(bytes@.len() as int),
            forall|i: int| bytes@.len() <= i < chunk@.len() ==> chunk@[i] == 0,
        decreases bytes.len(),
    {
        let ghost before = bytes@;
        bytes.pop();
        assert(bytes@ == before.drop_last());
    }
    bytes
}

/// The sender's view of its one connection to `host:porta`.
pub struct Enviador {
    host: String,
    porta: u32,
    conectado: bool,
}

impl Enviador {
    /// Whether a connection stands.
    pub closed spec fn connected(&self) -> bool {
        self.conectado
    }

    /// The host to connect to, as characters.
    pub closed spec fn host_view(&self) -> Seq<char> {
        self.host@
    }

    /// The port to connect to.
    pub closed spec fn port(&self) -> u32 {
        self.porta
    }

    /// A sender for `host:porta`. Nothing is connected yet: the first send
    /// or read asks for it.
    pub fn new(host: String, porta: u32) -> (sender: Self)
        ensures
            !sender.connected(),
            sender.host_view() == host@,
            sender.port() == porta,
    {
        Enviador { host, porta, conectado: false }
    }

    /// The host to connect to.
    pub fn host(&self) -> (host: &String)
        ensures
            host@ == self.host_view(),
    {
        &self.host
    }

    /// The port to connect to.
    pub fn porta(&self) -> (porta: u32)
        ensures
            porta == self.port(),
    {
        self.porta
    }

    /// Whether a connection stands.
    pub fn conectado(&self) -> (conectado: bool)
        ensures
            conectado == self.connected(),
    {
        self.conectado
    }

    /// Plans the sending of `seq`: connect first unless a connection stands,
    /// then write the samples as little-endian bytes.
    pub fn enviar_sequencia(&self, seq: Vec<i16>) -> (plan: SendPlan)
        ensures
            plan.connect == !self.connected(),
            plan.payload@ == wire_bytes(seq@),
    {
        SendPlan { connect: !self.conectado, payload: encode_samples(seq.as_slice()) }
    }

    /// Takes note of how a send went. A send that went through leaves the
    /// connection standing; any failure discards it, so that the next call
    /// connects afresh.
    pub fn concluir_envio(&mut self, outcome: SendOutcome) -> (result: Result<(), ConnectionError>)
        ensures
            final(self).host_view() == old(self).host_view(),
            final(self).port() == old(self).port(),
            final(self).connected() == (outcome == SendOutcome::Sent),
            result == match outcome {
                SendOutcome::Sent => Ok::<(), ConnectionError>(()),
                SendOutcome::ConnectFailed => Err(ConnectionError::ConnectFailed),
                SendOutcome::WriteFailed => Err(ConnectionError::WriteFailed),
            },
    {
        match outcome {
            SendOutcome::Sent => {
                self.conectado = true;
                Ok(())
            },
            SendOutcome::ConnectFailed => {
                self.conectado = false;
                Err(ConnectionError::ConnectFailed)
            },
            SendOutcome::WriteFailed => {
                self.conectado = false;
                Err(ConnectionError::WriteFailed)
            },
        }
    }

    /// Plans a read of what the backend has sent: connect first unless a
    /// connection stands, then read once into a zero-filled chunk under the
    /// short timeout.
    pub fn ler(&self) -> (plan: ReadPlan)
        ensures
            plan.connect == !self.connected(),
            plan.timeout_ms == READ_TIMEOUT_MS,
            plan.chunk_size == CHUNK_SIZE,
    {
        ReadPlan { connect: !self.conectado, timeout_ms: READ_TIMEOUT_MS, chunk_size: CHUNK_SIZE }
    }

    /// Takes note of how a read went and decodes what arrived: the chunk
    /// without its trailing zero padding, as text. A failure means that
    /// nothing is available now. A read that failed outright or met a closed
    /// connection discards it, so that the next call connects afresh.
    pub fn concluir_leitura(&mut self, outcome: ReadOutcome) -> (result: Result<
        String,
        ConnectionError,
    >)
        ensures
            final(self).host_view() == old(self).host_view(),
            final(self).port() == old(self).port(),
            final(self).connected() == connected_after_read(outcome),
            match result {
                Ok(text) => read_result(outcome) == Ok::<Seq<char>, ConnectionError>(text@),
                Err(e) => read_result(outcome) == Err::<Seq<char>, ConnectionError>(e),
            },
    {
        match outcome {
            ReadOutcome::ConnectFailed => {
                self.conectado = false;
                Err(ConnectionError::ConnectFailed)
            },
            ReadOutcome::TimedOut => {
                self.conectado = true;
                Err(ConnectionError::TimedOut)
            },
            ReadOutcome::Failed => {
                self.conectado = false;
                Err(ConnectionError::ReadFailed)
            },
            ReadOutcome::Chunk { chunk, read } => {
                self.conectado = read > 0;
                if read == 0 {
                    Err(ConnectionError::Closed)
                } else {
                    match utf8_to_string(strip_padding(chunk)) {
                        Some(text) => Ok(text),
                        None => Err(ConnectionError::InvalidEncoding),
                    }
                }
            },
        }
    }
}

} // verus!
