//! A pair of one-shot channels between a client and a server: a request
//! goes one way, its response comes back the other.

use tokio::sync::oneshot::error::RecvError;
use tokio::sync::oneshot::{Receiver, Sender};
use vstd::prelude::*;

verus! {

#[verifier::external_type_specification]
#[verifier::external_body]
#[verifier::reject_recursive_types(T)]
pub struct ExSender<T>(Sender<T>);

#[verifier::external_type_specification]
#[verifier::external_body]
#[verifier::reject_recursive_types(T)]
pub struct ExReceiver<T>(Receiver<T>);

#[verifier::external_type_specification]
#[verifier::external_body]
pub struct ExRecvError(RecvError);

/// Why a channel could not be used.
#[derive(Debug, Clone, Copy, PartialEq, Eq, Structural)]
pub enum ChannelError {
    /// The client has sent its request already.
    ClientTxTaken,
    /// The client has given its receiving end away.
    ClientRxTaken,
    /// The server has sent its response already, or has given its sending
    /// end away.
    ServerTxTaken,
    /// The server has taken its request already.
    ServerRxTaken,
    /// The server is gone: the request could not be sent.
    SendRequestFailed,
    /// The client is gone: the response could not be sent.
    SendResponseFailed,
    /// The server is gone without a response.
    ReceiveResponseFailed,
}

/// The message of `error`.
pub open spec fn channel_error_text(error: ChannelError) -> Seq<char> {
    match error {
        ChannelError::ClientTxTaken => "client tx already taken"@,
        ChannelError::ClientRxTaken => "Error: client rx already taken"@,
        ChannelError::ServerTxTaken => "server tx already taken"@,
        ChannelError::ServerRxTaken => "server rx already taken"@,
        ChannelError::SendRequestFailed => "Error: failed to send request"@,
        ChannelError::SendResponseFailed => "Error: failed to send response"@,
        ChannelError::ReceiveResponseFailed => "Error: failed to receive response"@,
    }
}

impl ChannelError {
    /// The message of this error.
    pub fn message(&self) -> (out: String)
        ensures
            out@ == channel_error_text(*self),
    {
        match self {
            ChannelError::ClientTxTaken => String::from_str("client tx already taken"),
            ChannelError::ClientRxTaken => String::from_str("Error: client rx already taken"),
            ChannelError::ServerTxTaken => String::from_str("server tx already taken"),
            ChannelError::ServerRxTaken => String::from_str("server rx already taken"),
            ChannelError::SendRequestFailed => String::from_str("Error: failed to send request"),
            ChannelError::SendResponseFailed => String::from_str("Error: failed to send response"),
            ChannelError::ReceiveResponseFailed => String::from_str(
                "Error: failed to receive response",
            ),
        }
    }
}

/// What a look into a receiving end found.
#[derive(Debug, PartialEq, Eq)]
pub enum Polled<T> {
    /// The value that was sent.
    Ready(T),
    /// Nothing was sent yet.
    Pending,
    /// Nothing will come.
    Failed(ChannelError),
}

/// Calls `tokio::sync::oneshot::channel`, which makes the two ends of a new
/// channel. Nothing is claimed of them.
#[verifier::external_body]
fn new_channel<T>() -> (out: (Sender<T>, Receiver<T>)) {
    tokio::sync::oneshot::channel()
}

/// Calls `Sender::send`, which hands the value to the receiving end, and
/// says whether it was taken: it is not where the receiving end is gone,
/// which nothing here can tell beforehand.
#[verifier::external_body]
fn send_value<T>(tx: Sender<T>, value: T) -> (out: bool) {
    tx.send(value).is_ok()
}

/// Calls `Receiver::try_recv`, which gives the value if one was sent, and
/// says otherwise whether the sending end is still there. `None` stands for
/// a sending end that is gone.
#[verifier::external_body]
fn poll_value<T>(rx: &mut Receiver<T>) -> (out: Option<Option<T>>) {
    match rx.try_recv() {
        Ok(value) => Some(Some(value)),
        Err(tokio::sync::oneshot::error::TryRecvError::Empty) => Some(None),
        Err(tokio::sync::oneshot::error::TryRecvError::Closed) => None,
    }
}

/// The client's ends: it sends one request and receives one response.
#[verifier::reject_recursive_types(Req)]
#[verifier::reject_recursive_types(Res)]
pub struct ClientChannel<Req, Res> {
    rx: Option<Receiver<Res>>,
    tx: Option<Sender<Req>>,
}

/// The server's ends: it receives one request and sends one response.
#[verifier::reject_recursive_types(Req)]
#[verifier::reject_recursive_types(Res)]
pub struct ServerChannel<Req, Res> {
    rx: Option<Receiver<Req>>,
    tx: Option<Sender<Res>>,
}

/// Makes the two channels and hands each side its ends.
pub fn create_client_server_channel<Req, Res>() -> (out: (
    ClientChannel<Req, Res>,
    ServerChannel<Req, Res>,
))
    ensures
        out.0.can_send(),
        out.0.can_receive(),
        out.1.can_send(),
        out.1.can_receive(),
{
    let (tx, rx) = new_channel::<Res>();
    let (tx2, rx2) = new_channel::<Req>();
    (ClientChannel { rx: Some(rx), tx: Some(tx2) }, ServerChannel { rx: Some(rx2), tx: Some(tx) })
}

impl<Req, Res> ClientChannel<Req, Res> {
    /// Whether the request is still to be sent.
    pub closed spec fn can_send(&self) -> bool {
        self.tx is Some
    }

    /// Whether the client still holds its receiving end.
    pub closed spec fn can_receive(&self) -> bool {
        self.rx is Some
    }

    /// Sends the request. It can be sent once; whether it arrives is up to
    /// the server's end.
    pub fn send(&mut self, req: Req) -> (out: Result<(), ChannelError>)
        ensures
            !final(self).can_send(),
            final(self).can_receive() == old(self).can_receive(),
            !old(self).can_send() ==> out == Err::<(), ChannelError>(ChannelError::ClientTxTaken),
            old(self).can_send() ==> out == Ok::<(), ChannelError>(()) || out == Err::<
                (),
                ChannelError,
            >(ChannelError::SendRequestFailed),
    {
        let mut taken: Option<Sender<Req>> = None;
        std::mem::swap(&mut self.tx, &mut taken);
        match taken {
            None => Err(ChannelError::ClientTxTaken),
            Some(tx) => {
                if send_value(tx, req) {
                    Ok(())
                } else {
                    Err(ChannelError::SendRequestFailed)
                }
            },
        }
    }

    /// Looks whether the response has come. The client keeps its receiving
    /// end.
    pub fn try_recv(&mut self) -> (out: Polled<Res>)
        ensures
            final(self).can_send() == old(self).can_send(),
            final(self).can_receive() == old(self).can_receive(),
            !old(self).can_receive() ==> out == Polled::<Res>::Failed(ChannelError::ClientRxTaken),
            old(self).can_receive() ==> out is Ready || out is Pending || out == Polled::<
                Res,
            >::Failed(ChannelError::ReceiveResponseFailed),
    {
        let mut taken: Option<Receiver<Res>> = None;
        std::mem::swap(&mut self.rx, &mut taken);
        match taken {
            None => Polled::Failed(ChannelError::ClientRxTaken),
            Some(mut rx) => {
                let polled = poll_value(&mut rx);
                self.rx = Some(rx);
                match polled {
                    Some(Some(value)) => Polled::Ready(value),
                    Some(None) => Polled::Pending,
                    None => Polled::Failed(ChannelError::ReceiveResponseFailed),
                }
            },
        }
    }
}

impl<Req, Res> ServerChannel<Req, Res> {
    /// Whether the response is still to be sent.
    pub closed spec fn can_send(&self) -> bool {
        self.tx is Some
    }

    /// Whether the request is still to be taken.
    pub closed spec fn can_receive(&self) -> bool {
        self.rx is Some
    }

    /// Hands out the sending end, once.
    pub fn take_tx(&mut self) -> (out: Result<Sender<Res>, ChannelError>)
        ensures
            !final(self).can_send(),
            final(self).can_receive() == old(self).can_receive(),
            old(self).can_send() <==> out is Ok,
            out matches Err(error) ==> error == ChannelError::ServerTxTaken,
    {
        let mut taken: Option<Sender<Res>> = None;
        std::mem::swap(&mut self.tx, &mut taken);
        match taken {
            Some(tx) => Ok(tx),
            None => Err(ChannelError::ServerTxTaken),
        }
    }

    /// Hands out the receiving end, once: the request is awaited on it.
    pub fn take_rx(&mut self) -> (out: Result<Receiver<Req>, ChannelError>)
        ensures
            !final(self).can_receive(),
            final(self).can_send() == old(self).can_send(),
            old(self).can_receive() <==> out is Ok,
            out matches Err(error) ==> error == ChannelError::ServerRxTaken,
    {
        let mut taken: Option<Receiver<Req>> = None;
        std::mem::swap(&mut self.rx, &mut taken);
        match taken {
            Some(rx) => Ok(rx),
            None => Err(ChannelError::ServerRxTaken),
        }
    }

    /// Sends the response. It can be sent once; whether it arrives is up to
    /// the client's end.
    pub fn send(&mut self, res: Res) -> (out: Result<(), ChannelError>)
        ensures
            !final(self).can_send(),
            final(self).can_receive() == old(self).can_receive(),
            !old(self).can_send() ==> out == Err::<(), ChannelError>(ChannelError::ServerTxTaken),
            old(self).can_send() ==> out == Ok::<(), ChannelError>(()) || out == Err::<
                (),
                ChannelError,
            >(ChannelError::SendResponseFailed),
    {
        match self.take_tx() {
            Err(error) => Err(error),
            Ok(tx) => {
                if send_value(tx, res) {
                    Ok(())
                } else {
                    Err(ChannelError::SendResponseFailed)
                }
            },
        }
    }
}

} // verus!
