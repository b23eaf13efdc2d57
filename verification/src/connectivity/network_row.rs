//! One Wi-Fi network in the list.
use vstd::prelude::*;

verus! {

/// A visible Wi-Fi service as shown in the network list.
#[derive(Debug, Clone)]
pub struct NetworkRow {
    /// D-Bus object path (selection target).
    pub path: String,
    /// SSID.
    pub title: String,
    /// Secondary line (state, strength, …).
    pub detail: String,
    /// Short status badge (e.g. `SECURE`).
    pub badge: String,
    /// Currently connected.
    pub connected: bool,
    /// Known/provisioned network.
    pub favorite: bool,
}

/// Abstract value of a [`NetworkRow`].
pub struct NetworkRowView {
    pub path: Seq<char>,
    pub title: Seq<char>,
    pub detail: Seq<char>,
    pub badge: Seq<char>,
    pub connected: bool,
    pub favorite: bool,
}

impl View for NetworkRow {
    type V = NetworkRowView;

    open spec fn view(&self) -> NetworkRowView {
        NetworkRowView {
            path: self.path@,
            title: self.title@,
            detail: self.detail@,
            badge: self.badge@,
            connected: self.connected,
            favorite: self.favorite,
        }
    }
}

impl Default for NetworkRow {
    fn default() -> (r: NetworkRow)
        ensures
            r@ == (NetworkRowView {
                path: Seq::empty(),
                title: Seq::empty(),
                detail: Seq::empty(),
                badge: Seq::empty(),
                connected: false,
                favorite: false,
            }),
    {
        NetworkRow {
            path: String::new(),
            title: String::new(),
            detail: String::new(),
            badge: String::new(),
            connected: false,
            favorite: false,
        }
    }
}

} // verus!
