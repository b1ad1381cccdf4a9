//! The envelope in which the metadata provider answers.

use vstd::prelude::*;
use crate::jeuinfos::JeuInfos;

verus! {

/// How the provider describes the request it answered.
#[derive(Debug)]
pub struct Header {
    pub apiversion: String,
    pub datetime: String,
    pub commandrequested: String,
    pub success: String,
    pub error: String,
}

/// The account the request was made for.
#[derive(Debug)]
pub struct Ssuser {
    pub id: String,
    pub niveau: String,
    pub contribution: String,
    pub uploadsysteme: String,
    pub uploadinfos: String,
    pub romasso: String,
    pub uploadmedia: String,
    pub maxthreads: String,
    pub maxdownloadspeed: String,
    pub requeststoday: String,
    pub visites: String,
    pub datedernierevisite: String,
    pub favregion: String,
}

/// The body of an answer: the account and the game.
#[derive(Debug)]
pub struct Response {
    pub ssuser: Ssuser,
    pub jeu: JeuInfos,
}

} // verus!
