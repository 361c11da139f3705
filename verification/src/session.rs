//! Operations as scripts, and their passage over the bus.
//!
//! An operation of the device is a script: a list of stages, each of which
//! moves bytes between the host and one or two registers. A session walks
//! through a script. It names the transaction that comes next, takes the
//! response of the bus, and goes on, until the script is through or the bus
//! fails.

use crate::bus::{BusRequest, BusResponse, RequestView, ResponseView};
use crate::device::{DeviceView, RadioDevice};
use crate::error::RadioError;
use crate::registers::BUFFER_SIZE;
use crate::script::{sound, transactions_from, Action, Stage};
use crate::state::RState;
use crate::transport::{i2c_write_bits, merged};
use core::marker::PhantomData;
use vstd::prelude::*;
use vstd::slice::slice_to_vec;

verus! {

/// The handle `device` with the parameters stored that the stages of `script`
/// from the index `from` on store, one after the other.
pub open spec fn settled_from<'a>(device: DeviceView<'a>, script: Seq<Stage>, from: int) -> DeviceView<
    'a,
>
    decreases script.len() - from,
{
    if 0 <= from < script.len() {
        settled_from(device.committed(script[from].commit), script, from + 1)
    } else {
        device
    }
}

/// What a session holds.
pub struct SessionView<'a> {
    /// The handle, with the parameters stored so far.
    pub device: DeviceView<'a>,
    /// The stages of the operation.
    pub script: Seq<Stage>,
    /// The index of the stage that is under way.
    pub cursor: int,
    /// The byte that the stage under way has read and will write from.
    pub latch: Option<u8>,
    /// The number of bytes that a `Measure` stage has read.
    pub count: u8,
    /// The block that a `Drain` stage has read.
    pub block: Option<Seq<u8>>,
    /// The data that a `Load` stage writes.
    pub outgoing: Seq<u8>,
    /// Whether the handle goes back to the caller if the bus fails.
    pub release: bool,
}

/// Where an operation stands.
pub enum ProgressView<'a> {
    /// The host owes the session the response to this request.
    Request(SessionView<'a>, RequestView),
    /// The operation is through: the handle, and the block that was read with
    /// its number of payload bytes, if the operation reads one.
    Done(DeviceView<'a>, Option<(Seq<u8>, u8)>),
    /// The operation was turned down or the bus failed: the handle, if it
    /// goes back to the caller, and the reason.
    Failed(Option<DeviceView<'a>>, RadioError),
}

impl<'a> SessionView<'a> {
    /// The script is sound and the stage under way is one of its stages.
    pub open spec fn wf(self) -> bool {
        &&& sound(self.script)
        &&& 0 <= self.cursor < self.script.len()
    }

    /// The stage under way.
    pub open spec fn stage(self) -> Stage {
        self.script[self.cursor]
    }

    /// The transaction that the session waits for.
    pub open spec fn pending(self) -> RequestView {
        match self.stage().action {
            Action::Update { register, value, mask_start, mask_end } => match self.latch {
                None => RequestView::Read { register, length: 1 },
                Some(current) => RequestView::Write {
                    register,
                    data: seq![merged(current, value, mask_start, mask_end)],
                },
            },
            Action::Forward { source, target } => match self.latch {
                None => RequestView::Read { register: source, length: 1 },
                Some(current) => RequestView::Write { register: target, data: seq![current] },
            },
            Action::Measure { register } => RequestView::Read { register, length: 1 },
            Action::Drain { register } => RequestView::Read { register, length: BUFFER_SIZE },
            Action::Load { register } => RequestView::Write { register, data: self.outgoing },
        }
    }

    /// The number of transactions that are left until the operation is
    /// through, the pending one counted.
    pub open spec fn remaining(self) -> nat {
        transactions_from(self.script, self.cursor + 1) + if self.latch is None {
            self.stage().action.transactions()
        } else {
            1
        }
    }

    /// The handle as it is when the operation is through: with the parameter
    /// of the stage under way stored, and those of the stages after it.
    pub open spec fn settled(self) -> DeviceView<'a> {
        settled_from(self.device, self.script, self.cursor)
    }

    /// The session at the start of `script`, waiting for its first
    /// transaction.
    pub open spec fn begin(
        device: DeviceView<'a>,
        script: Seq<Stage>,
        outgoing: Seq<u8>,
        release: bool,
    ) -> ProgressView<'a> {
        let session = SessionView {
            device,
            script,
            cursor: 0,
            latch: None,
            count: 0,
            block: None,
            outgoing,
            release,
        };
        ProgressView::Request(session, session.pending())
    }

    /// Where the operation stands once the stage under way is through: its
    /// parameter is stored, and the next stage is under way, or the operation
    /// is through.
    pub open spec fn proceed(self) -> ProgressView<'a> {
        let device = self.device.committed(self.stage().commit);
        if self.cursor + 1 < self.script.len() {
            let session = SessionView { device, cursor: self.cursor + 1, latch: None, ..self };
            ProgressView::Request(session, session.pending())
        } else {
            ProgressView::Done(
                device,
                match self.block {
                    Some(block) => Some((block, self.count)),
                    None => None,
                },
            )
        }
    }

    /// Where the operation stands after the response `response` to the
    /// pending transaction. A failure of the bus ends the operation, with
    /// the kind of failure that the bus reported. A read that a write
    /// depends on is kept for that write. Any other transaction that went
    /// through ends its stage.
    pub open spec fn advance(self, response: ResponseView) -> ProgressView<'a> {
        match response {
            ResponseView::Failed(kind) => ProgressView::Failed(
                if self.release {
                    Some(self.device)
                } else {
                    None
                },
                RadioError::I2cError(kind),
            ),
            ResponseView::Written => self.proceed(),
            ResponseView::Data(data) => match self.stage().action {
                Action::Measure { .. } => (SessionView { count: data[0], ..self }).proceed(),
                Action::Drain { .. } => (SessionView { block: Some(data), ..self }).proceed(),
                _ => {
                    let session = SessionView { latch: Some(data[0]), ..self };
                    ProgressView::Request(session, session.pending())
                },
            },
        }
    }
}

impl<'a> ProgressView<'a> {
    /// Where the operation stands after the bus has given `response` to the
    /// pending transaction. Once an operation has ended, a response changes
    /// nothing.
    pub open spec fn take(self, response: ResponseView) -> ProgressView<'a> {
        match self {
            ProgressView::Request(session, _) => session.advance(response),
            _ => self,
        }
    }

    /// Whether the bus does as it is asked all along `responses`: each
    /// response, as long as the operation waits for one, reports no failure
    /// and is one to the transaction pending at its turn.
    pub open spec fn obliged(self, responses: Seq<ResponseView>) -> bool
        decreases responses.len(),
    {
        responses.len() > 0 ==> (self matches ProgressView::Request(_, request) ==> {
            &&& !(responses.first() is Failed)
            &&& responses.first().answers(request)
            &&& self.take(responses.first()).obliged(responses.drop_first())
        })
    }

    /// Where the operation stands after the bus has given `responses`, one
    /// after the other, each to the transaction pending at its turn.
    pub open spec fn after(self, responses: Seq<ResponseView>) -> ProgressView<'a>
        decreases responses.len(),
    {
        if responses.len() == 0 {
            self
        } else {
            self.take(responses.first()).after(responses.drop_first())
        }
    }
}

/// An operation under way: a handle tagged `S`, the script of the operation,
/// and how far it has come. When the script is through, the handle is tagged
/// `T`.
pub struct Session<'a, S: RState, T: RState> {
    device: RadioDevice<'a, S>,
    script: Vec<Stage>,
    cursor: usize,
    latch: Option<u8>,
    count: u8,
    block: Option<[u8; BUFFER_SIZE]>,
    outgoing: Vec<u8>,
    release: bool,
    target: PhantomData<T>,
}

impl<'a, S: RState, T: RState> View for Session<'a, S, T> {
    type V = SessionView<'a>;

    closed spec fn view(&self) -> SessionView<'a> {
        SessionView {
            device: self.device@,
            script: self.script@,
            cursor: self.cursor as int,
            latch: self.latch,
            count: self.count,
            block: match self.block {
                Some(block) => Some(block@),
                None => None,
            },
            outgoing: self.outgoing@,
            release: self.release,
        }
    }
}

/// Where an operation stands.
pub enum Progress<'a, S: RState, T: RState> {
    /// The host is to carry out the request and to hand its response to
    /// [`Session::advance`].
    Request(Session<'a, S, T>, BusRequest),
    /// The operation is through. The handle is tagged with the state that the
    /// operation leads to. With it comes the block that was read and its
    /// number of payload bytes, if the operation reads one.
    Done(RadioDevice<'a, T>, Option<([u8; BUFFER_SIZE], u8)>),
    /// The operation was turned down or the bus failed. The handle comes
    /// back as it was tagged, with the parameters that were stored until
    /// then, unless the operation is one that gives it up.
    Failed(Option<RadioDevice<'a, S>>, RadioError),
}

impl<'a, S: RState, T: RState> View for Progress<'a, S, T> {
    type V = ProgressView<'a>;

    open spec fn view(&self) -> ProgressView<'a> {
        match *self {
            Progress::Request(session, request) => ProgressView::Request(session@, request@),
            Progress::Done(device, payload) => ProgressView::Done(
                device@,
                match payload {
                    Some((block, count)) => Some((block@, count)),
                    None => None,
                },
            ),
            Progress::Failed(device, error) => ProgressView::Failed(
                match device {
                    Some(device) => Some(device@),
                    None => None,
                },
                error,
            ),
        }
    }
}

fn to_block(data: &Vec<u8>) -> (block: [u8; BUFFER_SIZE])
    requires
        data.len() == BUFFER_SIZE,
    ensures
        block@ == data@,
{
    let mut block: [u8; BUFFER_SIZE] = [0u8; BUFFER_SIZE];
    let mut i: usize = 0;
    while i < BUFFER_SIZE
        invariant
            i <= BUFFER_SIZE,
            data.len() == BUFFER_SIZE,
            forall|j: int| 0 <= j < i ==> block@[j] == data@[j],
        decreases BUFFER_SIZE - i,
    {
        block[i] = data[i];
        i += 1;
    }
    assert(block@ =~= data@);
    block
}

impl<'a, S: RState, T: RState> Session<'a, S, T> {
    #[verifier::type_invariant]
    spec fn inv(self) -> bool {
        self@.wf()
    }

    /// The session at the start of `script`.
    pub(crate) fn start(
        device: RadioDevice<'a, S>,
        script: Vec<Stage>,
        outgoing: Vec<u8>,
        release: bool,
    ) -> (progress: Progress<'a, S, T>)
        requires
            sound(script@),
        ensures
            progress@ == SessionView::begin(device@, script@, outgoing@, release),
    {
        let session = Session {
            device,
            script,
            cursor: 0,
            latch: None,
            count: 0,
            block: None,
            outgoing,
            release,
            target: PhantomData,
        };
        let request = session.request();
        Progress::Request(session, request)
    }

    /// The transaction that the session waits for.
    fn request(&self) -> (request: BusRequest)
        ensures
            request@ == self@.pending(),
    {
        proof {
            use_type_invariant(self);
        }
        match self.script[self.cursor].action {
            Action::Update { register, value, mask_start, mask_end } => match self.latch {
                None => BusRequest::Read { register, length: 1 },
                Some(current) => {
                    let mut data: Vec<u8> = Vec::new();
                    data.push(i2c_write_bits(current, value, mask_start, mask_end));
                    assert(data@ =~= seq![merged(current, value, mask_start, mask_end)]);
                    BusRequest::Write { register, data }
                },
            },
            Action::Forward { source, target } => match self.latch {
                None => BusRequest::Read { register: source, length: 1 },
                Some(current) => {
                    let mut data: Vec<u8> = Vec::new();
                    data.push(current);
                    assert(data@ =~= seq![current]);
                    BusRequest::Write { register: target, data }
                },
            },
            Action::Measure { register } => BusRequest::Read { register, length: 1 },
            Action::Drain { register } => BusRequest::Read { register, length: BUFFER_SIZE },
            Action::Load { register } => BusRequest::Write {
                register,
                data: slice_to_vec(self.outgoing.as_slice()),
            },
        }
    }

    /// Ends the stage under way.
    fn proceed(self) -> (progress: Progress<'a, S, T>)
        ensures
            progress@ == self@.proceed(),
    {
        proof {
            use_type_invariant(&self);
            assert(self.cursor < self.script.len());
        }
        let commit = self.script[self.cursor].commit;
        let device = self.device.committed(commit);
        if self.cursor + 1 < self.script.len() {
            let session = Session {
                device,
                script: self.script,
                cursor: self.cursor + 1,
                latch: None,
                count: self.count,
                block: self.block,
                outgoing: self.outgoing,
                release: self.release,
                target: PhantomData,
            };
            let request = session.request();
            Progress::Request(session, request)
        } else {
            let payload = match self.block {
                Some(block) => Some((block, self.count)),
                None => None,
            };
            Progress::Done(device.tagged::<T>(), payload)
        }
    }

    /// Takes the response of the bus if it is one to the pending transaction,
    /// and says where the operation stands then. A response that is none to
    /// the pending transaction is not taken: the session comes back as it
    /// was.
    pub fn accept(self, response: BusResponse) -> (outcome: Result<Progress<'a, S, T>, Self>)
        ensures
            response@.answers(self@.pending()) ==> (outcome matches Ok(progress) && progress@
                == self@.advance(response@)),
            !response@.answers(self@.pending()) ==> outcome == Err::<Progress<'a, S, T>, Self>(self),
    {
        let request = self.request();
        if response.answers(&request) {
            Ok(self.advance(response))
        } else {
            Err(self)
        }
    }

    /// Takes the response of the bus to the pending transaction and says
    /// where the operation stands then.
    pub fn advance(self, response: BusResponse) -> (progress: Progress<'a, S, T>)
        requires
            response@.answers(self@.pending()),
        ensures
            progress@ == self@.advance(response@),
    {
        proof {
            use_type_invariant(&self);
        }
        match response {
            BusResponse::Failed(kind) => Progress::Failed(
                if self.release {
                    Some(self.device)
                } else {
                    None
                },
                RadioError::I2cError(kind),
            ),
            BusResponse::Written => self.proceed(),
            BusResponse::Data(data) => match self.script[self.cursor].action {
                Action::Measure { .. } => {
                    let session = Session { count: data[0], ..self };
                    session.proceed()
                },
                Action::Drain { .. } => {
                    let session = Session { block: Some(to_block(&data)), ..self };
                    session.proceed()
                },
                _ => {
                    let session = Session { latch: Some(data[0]), ..self };
                    let request = session.request();
                    Progress::Request(session, request)
                },
            },
        }
    }
}

} // verus!
