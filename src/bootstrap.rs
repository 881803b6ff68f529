use vstd::prelude::*;

use crate::discovery::{DiscoveredDevice, IpAddress};

verus! {

/// An IPv4 address, by its four octets.
#[derive(Debug, Clone, Copy, PartialEq, Eq, Structural)]
pub struct Ipv4(pub u8, pub u8, pub u8, pub u8);

/// Where a session is set up: an IPv4 address and a port.
#[derive(Debug, Clone, Copy, PartialEq, Eq, Structural)]
pub struct Endpoint {
    pub ip: Ipv4,
    pub port: u16,
}

/// Why a session could not be set up; each ends that attempt only.
#[derive(Debug, Clone, Copy, PartialEq, Eq, Structural)]
pub enum BootstrapError {
    NoUsableAddress,
    AuthSetupFailed,
    ConnectFailed,
    EncodeFailed,
    WriteFailed,
    ReadFailed,
}

/// The first IPv4 address of a list.
pub open spec fn first_ipv4(addrs: Seq<IpAddress>) -> Option<Ipv4>
    decreases addrs.len(),
{
    if addrs.len() == 0 {
        None
    } else {
        match addrs[0] {
            IpAddress::V4(a, b, c, d) => Some(Ipv4(a, b, c, d)),
            IpAddress::V6(_) => first_ipv4(addrs.drop_first()),
        }
    }
}

/// Picks the first IPv4 address of a device, with its port.
pub fn select_endpoint(device: &DiscoveredDevice) -> (r: Result<Endpoint, BootstrapError>)
    ensures
        match first_ipv4(device.addresses@) {
            Some(ip) => r is Ok && r->Ok_0.ip == ip && r->Ok_0.port == device.port,
            None => r == Err::<Endpoint, BootstrapError>(BootstrapError::NoUsableAddress),
        },
{
    let addrs = &device.addresses;
    let mut i: usize = 0;
    assert(addrs@.subrange(0, addrs@.len() as int) =~= addrs@);
    while i < addrs.len()
        invariant
            i <= addrs@.len(),
            addrs@ == device.addresses@,
            first_ipv4(addrs@) == first_ipv4(addrs@.subrange(i as int, addrs@.len() as int)),
        decreases addrs@.len() - i,
    {
        let ghost tail = addrs@.subrange(i as int, addrs@.len() as int);
        assert(tail.drop_first() =~= addrs@.subrange(i + 1, addrs@.len() as int));
        assert(tail[0] == addrs@[i as int]);
        match addrs[i] {
            IpAddress::V4(a, b, c, d) => {
                assert(first_ipv4(tail) == Some(Ipv4(a, b, c, d)));
                return Ok(Endpoint { ip: Ipv4(a, b, c, d), port: device.port });
            },
            IpAddress::V6(_) => {},
        }
        i += 1;
    }
    Err(BootstrapError::NoUsableAddress)
}

/// Decimal ASCII text of `n`, without leading zeros.
pub open spec fn decimal(n: nat) -> Seq<u8>
    decreases n,
{
    if n < 10 {
        seq![(48 + n) as u8]
    } else {
        decimal(n / 10).push((48 + n % 10) as u8)
    }
}

/// The start of the setup request line.
pub open spec fn setup_head() -> Seq<u8> {
    seq![83, 69, 84, 85, 80, 32, 114, 116, 115, 112, 58, 47, 47]
}

/// The end of the request line and the start of the sequence header.
pub open spec fn setup_version() -> Seq<u8> {
    seq![32, 82, 84, 83, 80, 47, 49, 46, 48, 13, 10, 67, 83, 101, 113, 58, 32]
}

/// The start of the length header.
pub open spec fn content_length_head() -> Seq<u8> {
    seq![13, 10, 67, 111, 110, 116, 101, 110, 116, 45, 76, 101, 110, 103, 116, 104, 58, 32]
}

/// The end of the headers.
pub open spec fn header_end() -> Seq<u8> {
    seq![13, 10, 13, 10]
}

/// The scheme of the key exchange call.
pub open spec fn http_head() -> Seq<u8> {
    seq![104, 116, 116, 112, 58, 47, 47]
}

/// The path of the key exchange call.
pub open spec fn auth_setup_path() -> Seq<u8> {
    seq![47, 97, 117, 116, 104, 45, 115, 101, 116, 117, 112]
}

/// `a.b.c.d:port`.
pub open spec fn endpoint_text(e: Endpoint) -> Seq<u8> {
    decimal(e.ip.0 as nat) + seq![46u8] + decimal(e.ip.1 as nat) + seq![46u8] + decimal(
        e.ip.2 as nat,
    ) + seq![46u8] + decimal(e.ip.3 as nat) + seq![58u8] + decimal(e.port as nat)
}

/// The URL of the key exchange call to `e`.
pub open spec fn auth_setup_url_spec(e: Endpoint) -> Seq<u8> {
    http_head() + endpoint_text(e) + auth_setup_path()
}

/// The setup request to `e` with sequence number `seq` and body `body`,
/// the body appended as it is.
pub open spec fn setup_request_spec(e: Endpoint, seq: u64, body: Seq<u8>) -> Seq<u8> {
    setup_head() + endpoint_text(e) + setup_version() + decimal(seq as nat) + content_length_head()
        + decimal(body.len()) + header_end() + body
}

fn push_decimal(out: &mut Vec<u8>, n: u64)
    ensures
        final(out)@ == old(out)@ + decimal(n as nat),
    decreases n,
{
    if n >= 10 {
        push_decimal(out, n / 10);
    }
    out.push(48 + (n % 10) as u8);
    assert(final(out)@ =~= old(out)@ + decimal(n as nat));
}

fn push_all(out: &mut Vec<u8>, bytes: &Vec<u8>)
    ensures
        final(out)@ == old(out)@ + bytes@,
{
    let mut i: usize = 0;
    while i < bytes.len()
        invariant
            i <= bytes@.len(),
            out@ == old(out)@ + bytes@.subrange(0, i as int),
        decreases bytes@.len() - i,
    {
        out.push(bytes[i]);
        i += 1;
        assert(out@ =~= old(out)@ + bytes@.subrange(0, i as int));
    }
    assert(bytes@.subrange(0, i as int) =~= bytes@);
}

fn push_endpoint(out: &mut Vec<u8>, e: Endpoint)
    ensures
        final(out)@ == old(out)@ + endpoint_text(e),
{
    let ghost start = out@;
    push_decimal(out, e.ip.0 as u64);
    out.push(46);
    push_decimal(out, e.ip.1 as u64);
    out.push(46);
    push_decimal(out, e.ip.2 as u64);
    out.push(46);
    push_decimal(out, e.ip.3 as u64);
    out.push(58);
    push_decimal(out, e.port as u64);
    assert(out@ =~= start + endpoint_text(e));
}


/// Appends one of the fixed texts of the protocol.
fn push_text(out: &mut Vec<u8>, text: Vec<u8>)
    ensures
        final(out)@ == old(out)@ + text@,
{
    push_all(out, &text);
}

/// The URL of the key exchange call to `e`, as ASCII bytes.
pub fn auth_setup_url(e: Endpoint) -> (r: Vec<u8>)
    ensures
        r@ == auth_setup_url_spec(e),
{
    let mut out: Vec<u8> = Vec::new();
    push_text(&mut out, vec![104, 116, 116, 112, 58, 47, 47]);
    push_endpoint(&mut out, e);
    push_text(&mut out, vec![47, 97, 117, 116, 104, 45, 115, 101, 116, 117, 112]);
    assert(out@ =~= auth_setup_url_spec(e));
    out
}

/// The body of the key exchange call: the version byte, then the public key.
pub fn auth_setup_body(public_key: &[u8; 32]) -> (r: Vec<u8>)
    ensures
        r@ == seq![0x10u8] + public_key@,
{
    let mut out: Vec<u8> = Vec::new();
    out.push(0x10);
    let mut i: usize = 0;
    while i < 32
        invariant
            i <= 32,
            public_key@.len() == 32,
            out@ == seq![0x10u8] + public_key@.subrange(0, i as int),
        decreases 32 - i,
    {
        out.push(public_key[i]);
        i += 1;
        assert(out@ =~= seq![0x10u8] + public_key@.subrange(0, i as int));
    }
    assert(public_key@.subrange(0, 32) =~= public_key@);
    out
}

/// The setup request to `e`, numbered `seq`, carrying `body` as it is.
pub fn setup_request(e: Endpoint, seq: u64, body: &Vec<u8>) -> (r: Vec<u8>)
    ensures
        r@ == setup_request_spec(e, seq, body@),
{
    let mut out: Vec<u8> = Vec::new();
    push_text(&mut out, vec![83, 69, 84, 85, 80, 32, 114, 116, 115, 112, 58, 47, 47]);
    push_endpoint(&mut out, e);
    push_text(&mut out, vec![32, 82, 84, 83, 80, 47, 49, 46, 48, 13, 10, 67, 83, 101, 113, 58, 32]);
    push_decimal(&mut out, seq);
    push_text(&mut out, vec![13, 10, 67, 111, 110, 116, 101, 110, 116, 45, 76, 101, 110, 103, 116, 104, 58, 32]);
    push_decimal(&mut out, body.len() as u64);
    push_text(&mut out, vec![13, 10, 13, 10]);
    push_all(&mut out, body);
    assert(out@ =~= setup_request_spec(e, seq, body@));
    out
}


/// Where a setup attempt stands. It moves forward only, one stage at a
/// time, and stops at `ResponseReceived` or at the first failure.
#[derive(Debug, Clone, Copy, PartialEq, Eq, Structural)]
pub enum Stage {
    Idle,
    AddressSelected,
    AuthKeySent,
    TcpConnected,
    SetupRequestSent,
    ResponseReceived,
    Failed(BootstrapError),
}

/// The place of a stage in the sequence; failure comes last.
pub open spec fn stage_rank(s: Stage) -> nat {
    match s {
        Stage::Idle => 0,
        Stage::AddressSelected => 1,
        Stage::AuthKeySent => 2,
        Stage::TcpConnected => 3,
        Stage::SetupRequestSent => 4,
        Stage::ResponseReceived => 5,
        Stage::Failed(_) => 6,
    }
}

pub open spec fn is_terminal_spec(s: Stage) -> bool {
    s is ResponseReceived || s is Failed
}

/// The stage after `s` once its step has succeeded.
pub open spec fn successor(s: Stage) -> Stage {
    match s {
        Stage::Idle => Stage::AddressSelected,
        Stage::AddressSelected => Stage::AuthKeySent,
        Stage::AuthKeySent => Stage::TcpConnected,
        Stage::TcpConnected => Stage::SetupRequestSent,
        Stage::SetupRequestSent => Stage::ResponseReceived,
        _ => s,
    }
}

/// The stage after `s` once its step has given `outcome`.
pub open spec fn advance_spec(s: Stage, outcome: Result<(), BootstrapError>) -> Stage {
    if is_terminal_spec(s) {
        s
    } else {
        match outcome {
            Ok(_) => successor(s),
            Err(e) => Stage::Failed(e),
        }
    }
}

impl Stage {
    pub fn is_terminal(&self) -> (r: bool)
        ensures
            r == is_terminal_spec(*self),
    {
        match self {
            Stage::ResponseReceived => true,
            Stage::Failed(_) => true,
            _ => false,
        }
    }

    /// The next stage, given how the step out of this one went.
    pub fn advance(self, outcome: Result<(), BootstrapError>) -> (r: Stage)
        ensures
            r == advance_spec(self, outcome),
    {
        if self.is_terminal() {
            return self;
        }
        match outcome {
            Err(e) => Stage::Failed(e),
            Ok(()) => match self {
                Stage::Idle => Stage::AddressSelected,
                Stage::AddressSelected => Stage::AuthKeySent,
                Stage::AuthKeySent => Stage::TcpConnected,
                Stage::TcpConnected => Stage::SetupRequestSent,
                _ => Stage::ResponseReceived,
            },
        }
    }
}

/// A setup attempt never moves back: each step keeps its stage or moves to
/// a later one, a stage that is not final moves exactly one place on
/// success, and a final stage stays as it is.
pub proof fn lemma_advance_is_linear(s: Stage, outcome: Result<(), BootstrapError>)
    ensures
        stage_rank(advance_spec(s, outcome)) >= stage_rank(s),
        !is_terminal_spec(s) && outcome is Ok ==> stage_rank(advance_spec(s, outcome)) == stage_rank(s) + 1,
        is_terminal_spec(s) ==> advance_spec(s, outcome) == s,
        !is_terminal_spec(s) && outcome is Err ==> advance_spec(s, outcome) == Stage::Failed(outcome->Err_0),
{
}

/// What one read of the connection gave.
#[derive(Debug, Clone, Copy, PartialEq, Eq, Structural)]
pub enum ReadOutcome {
    /// `n` bytes arrived; zero when the peer has closed the connection.
    Bytes(usize),
    /// Nothing to read yet.
    NotReady,
    /// Any other I/O error.
    Failed,
}

/// What to do after a read.
#[derive(Debug, Clone, Copy, PartialEq, Eq, Structural)]
pub enum ReadDecision {
    Retry,
    Finished(usize),
    Abort(BootstrapError),
}

/// Waits again on "not ready", stops on data or on close, and gives up
/// with `ReadFailed` on any other error.
pub fn on_read(outcome: ReadOutcome) -> (r: ReadDecision)
    ensures
        outcome is NotReady ==> r is Retry,
        outcome matches ReadOutcome::Bytes(n) ==> r == ReadDecision::Finished(n),
        outcome is Failed ==> r == ReadDecision::Abort(BootstrapError::ReadFailed),
{
    match outcome {
        ReadOutcome::Bytes(n) => ReadDecision::Finished(n),
        ReadOutcome::NotReady => ReadDecision::Retry,
        ReadOutcome::Failed => ReadDecision::Abort(BootstrapError::ReadFailed),
    }
}

} // verus!
