//! Plain request and response records of the file-system API surface. The
//! wire encodings live outside the library; these carry the decoded values.

use vstd::prelude::*;

verus! {

/// The response to adding a tar archive.
#[derive(Debug)]
pub struct TarAddResponse {
    pub name: String,
    pub hash: String,
}

/// The request to open the configuration in an editor.
pub struct ConfigEdit;

/// The request to replace the configuration.
pub struct ConfigReplace;

/// The request to show the configuration.
pub struct ConfigShow;

/// The response listing subscribed topics.
#[derive(Debug)]
pub struct PubsubLsResponse {
    pub strings: Vec<String>,
}

/// The response listing peers of a topic.
#[derive(Debug)]
pub struct PubsubPeersResponse {
    pub strings: Vec<String>,
}

/// One message received on a subscription.
#[derive(Debug)]
pub struct PubsubSubResponse {
    pub from: Option<String>,
    pub data: Option<String>,
    pub seqno: Option<String>,
    pub topic_ids: Option<Vec<String>>,
    pub unrecognized: Option<Vec<u8>>,
}

} // verus!
