//! The list of peers.
//!
//! The list is kept in a file. Reading and writing the file is the
//! caller's part; the list itself is kept here.

use vstd::prelude::*;
use vstd::string::*;

verus! {

/// A peer and whether it was reached.
#[derive(Debug, Clone)]
pub struct PeerInfo {
    pub address: String,
    pub success: bool,
}

/// What a [`PeerInfo`] holds.
pub struct PeerInfoView {
    pub address: Seq<char>,
    pub success: bool,
}

impl View for PeerInfo {
    type V = PeerInfoView;

    open spec fn view(&self) -> PeerInfoView {
        PeerInfoView { address: self.address@, success: self.success }
    }
}

/// The peers that a vector holds.
pub open spec fn peer_views(v: Seq<PeerInfo>) -> Seq<PeerInfoView> {
    v.map_values(|p: PeerInfo| p@)
}

/// The list of peers and the file it is kept in.
#[derive(Debug)]
pub struct PeerManager {
    file_path: String,
    peers: Vec<PeerInfo>,
}

/// What a [`PeerManager`] holds.
pub struct PeerManagerView {
    pub file_path: Seq<char>,
    /// The peers, in the order in which they were added.
    pub peers: Seq<PeerInfoView>,
}

impl View for PeerManager {
    type V = PeerManagerView;

    closed spec fn view(&self) -> PeerManagerView {
        PeerManagerView { file_path: self.file_path@, peers: peer_views(self.peers@) }
    }
}

impl PeerManager {
    /// An empty list, to be kept in `file_path`.
    pub fn new(file_path: &str) -> (m: Self)
        ensures
            m@.file_path == file_path@,
            m@.peers.len() == 0,
    {
        Self { file_path: file_path.to_owned(), peers: Vec::new() }
    }

    pub fn file_path(&self) -> (r: &str)
        ensures
            r@ == self@.file_path,
    {
        self.file_path.as_str()
    }

    pub fn peers(&self) -> (r: &Vec<PeerInfo>)
        ensures
            peer_views(r@) == self@.peers,
    {
        &self.peers
    }

    /// Replaces the list by `peers`, which were read from the file.
    pub fn load(&mut self, peers: Vec<PeerInfo>)
        ensures
            final(self)@ == (PeerManagerView { peers: peer_views(peers@), ..old(self)@ }),
    {
        self.peers = peers;
    }

    /// Adds a peer at the end of the list.
    pub fn add_peer(&mut self, address: String, success: bool)
        ensures
            final(self)@ == (PeerManagerView {
                peers: old(self)@.peers.push(PeerInfoView { address: address@, success }),
                ..old(self)@
            }),
    {
        let ghost before = peer_views(self.peers@);
        self.peers.push(PeerInfo { address, success });
        assert(peer_views(self.peers@) =~= before.push(PeerInfoView { address: address@, success }));
    }

    /// Empties the list. The file is to be written anew after it.
    pub fn refresh(&mut self)
        ensures
            final(self)@ == (PeerManagerView {
                peers: Seq::<PeerInfoView>::empty(),
                ..old(self)@
            }),
    {
        self.peers.clear();
        assert(peer_views(self.peers@) =~= Seq::<PeerInfoView>::empty());
    }
}

} // verus!
