use vstd::prelude::*;

verus! {

/// Where the node listens and how to log in to it.
#[derive(Debug, Clone)]
pub struct NodeConfig {
    /// The node's RPC endpoint, such as `http://127.0.0.1:18443`.
    pub url: String,
    pub user: String,
    pub password: String,
}

/// The endpoint of the wallet named `wallet` on the node at `url`.
pub open spec fn wallet_url_of(url: Seq<char>, wallet: Seq<char>) -> Seq<char> {
    url + seq!['/', 'w', 'a', 'l', 'l', 'e', 't', '/'] + wallet
}

impl NodeConfig {
    /// The endpoint through which calls reach the wallet named `wallet`.
    pub fn wallet_url(&self, wallet: &str) -> (r: String)
        ensures
            r@ == wallet_url_of(self.url@, wallet@),
    {
        let sep = "/wallet/";
        proof {
            reveal_strlit("/wallet/");
        }
        let mut r = self.url.clone();
        r.append(sep);
        r.append(wallet);
        assert(r@ =~= wallet_url_of(self.url@, wallet@));
        r
    }
}

} // verus!
