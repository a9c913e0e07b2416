//! APIs that are related to encryption.
//!
//! #
//! For details on encryption specifications,
//! please see [Sony's documentation](https://pro-bravia.sony.net/develop/integrate/rest-api/doc/Data-Encryption_401146660/index.html).

use crate::call::call;
use crate::call::typed;
use crate::call::typed_reply;
use crate::call::typed_view;
use crate::client::Bravia;
use crate::decode::element;
use crate::error::result_view;
use crate::error::Error;
use crate::request::default_version;
use crate::request::RequestBodyBuilder;
use crate::request::RequestBuilder;
use crate::request::RequestGetElementTypeView;
use crate::request::RequestView;
use crate::response::completion;
use crate::transport::HttpOutcome;
use crate::transport::HttpRequest;
use vstd::prelude::*;

verus! {

/// Provides access to encryption service APIs.
pub struct EncryptionService<'a>(pub &'a Bravia);

impl<'a> EncryptionService<'a> {
    pub fn new(bravia: &'a Bravia) -> (r: Self)
        ensures
            r.0 == bravia,
    {
        Self(bravia)
    }

    /// The call of `getPublicKey`.
    pub open spec fn get_public_key_request() -> RequestView {
        call(
            "encryption"@,
            1,
            "getPublicKey"@,
            default_version(),
            None,
            false,
            true,
            RequestGetElementTypeView::Text("publicKey"@),
        )
    }

    /// Requests the device to provide an RSA public key for encryption.
    ///
    /// # Authentication Level
    /// None
    pub fn get_public_key(&self) -> (r: Result<HttpRequest, Error>)
        ensures
            result_view(r) == self.0@.prepared(Self::get_public_key_request()),
    {
        let body = RequestBodyBuilder::default()
            .id(1)
            .method("getPublicKey")
            .build()?;
        RequestBuilder::default()
            .endpoint("encryption")
            .body(body)
            .has_result()
            .get("publicKey".into())
            .make(self.0)
    }

    /// Reads the reply to `getPublicKey`:
    /// the member `publicKey` of the first element of the result.
    pub fn get_public_key_reply(&self, outcome: HttpOutcome) -> (r: Result<String, Error>)
        ensures
            typed_view(r) == typed::<String>(
                completion(outcome@, true, RequestGetElementTypeView::Text("publicKey"@)),
            ),
    {
        typed_reply::<String>(outcome, true, &"publicKey".into())
    }

}

} // verus!
