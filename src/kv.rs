//! Requests and responses of a small key-value store.
//!
//! A request names a command (`set`, `get` or `delete`), a key and a value.
//! [`KVRequest::operation`] decides what the request asks for; the store performs
//! it, and the outcome becomes a [`KVResponse`], whose `error` is empty on
//! success.

use vstd::prelude::*;

verus! {

/// A request as the caller sends it.
pub struct KVRequest {
    pub command: String,
    pub key: String,
    pub value: String,
}

/// What a request asks the store to do.
#[derive(Debug)]
pub enum KvOperation {
    /// Store `value` under `key`.
    Store { key: String, value: String },
    /// Read the value under `key`.
    Fetch { key: String },
    /// Remove `key`.
    Remove { key: String },
    /// The command is none of the above.
    Invalid,
}

impl KVRequest {
    pub fn new(command: String, key: String, value: String) -> (r: Self)
        ensures
            r.command == command,
            r.key == key,
            r.value == value,
    {
        KVRequest { command, key, value }
    }

    /// The operation that the request names.
    pub fn operation(self) -> (r: KvOperation)
        ensures
            self.command@ == "set"@ ==> r == (KvOperation::Store { key: self.key, value: self.value }),
            self.command@ == "get"@ ==> r == (KvOperation::Fetch { key: self.key }),
            self.command@ == "delete"@ ==> r == (KvOperation::Remove { key: self.key }),
            self.command@ != "set"@ && self.command@ != "get"@ && self.command@ != "delete"@ ==> r
                == KvOperation::Invalid,
    {
        proof {
            reveal_strlit("set");
            reveal_strlit("get");
            reveal_strlit("delete");
            assert("set"@[0] != "get"@[0]);
            assert("set"@[0] != "delete"@[0]);
            assert("get"@[0] != "delete"@[0]);
        }
        let set = "set".to_owned();
        let get = "get".to_owned();
        let delete = "delete".to_owned();
        if self.command == set {
            KvOperation::Store { key: self.key, value: self.value }
        } else if self.command == get {
            KvOperation::Fetch { key: self.key }
        } else if self.command == delete {
            KvOperation::Remove { key: self.key }
        } else {
            KvOperation::Invalid
        }
    }
}

/// The answer to a request: `error` is empty on success, and `value` holds what
/// a `get` read.
pub struct KVResponse {
    pub error: String,
    pub value: String,
}

impl KVResponse {
    /// Success, with nothing to return.
    pub fn done() -> (r: Self)
        ensures
            r.error@ == Seq::<char>::empty(),
            r.value@ == Seq::<char>::empty(),
    {
        KVResponse { error: String::new(), value: String::new() }
    }

    /// Failure, with its message.
    pub fn failed(error: String) -> (r: Self)
        ensures
            r.error == error,
            r.value@ == Seq::<char>::empty(),
    {
        KVResponse { error, value: String::new() }
    }

    /// The answer to a request whose command is unknown.
    pub fn invalid_operation() -> (r: Self)
        ensures
            r.error@ == "Invalid operation"@,
            r.value@ == Seq::<char>::empty(),
    {
        KVResponse::failed("Invalid operation".to_owned())
    }

    /// The answer to a `set` or a `delete`, from the store's outcome.
    pub fn from_write(outcome: Result<(), String>) -> (r: Self)
        ensures
            r.value@ == Seq::<char>::empty(),
            match outcome {
                Ok(()) => r.error@ == Seq::<char>::empty(),
                Err(e) => r.error == e,
            },
    {
        match outcome {
            Ok(()) => KVResponse::done(),
            Err(e) => KVResponse::failed(e),
        }
    }

    /// The answer to a `get`, from the store's outcome: the value read, no value
    /// under the key, or the store's error.
    pub fn from_read(outcome: Result<Option<String>, String>) -> (r: Self)
        ensures
            match outcome {
                Ok(Some(v)) => r.error@ == Seq::<char>::empty() && r.value == v,
                Ok(None) => r.error@ == "Key not found"@ && r.value@ == Seq::<char>::empty(),
                Err(e) => r.error == e && r.value@ == Seq::<char>::empty(),
            },
    {
        match outcome {
            Ok(Some(v)) => KVResponse { error: String::new(), value: v },
            Ok(None) => KVResponse::failed("Key not found".to_owned()),
            Err(e) => KVResponse::failed(e),
        }
    }
}

} // verus!
