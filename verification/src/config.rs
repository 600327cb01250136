use vstd::prelude::*;

verus! {

/// The stored token pair of one storage account.
#[derive(Debug, Clone)]
pub struct TokensConfig {
    pub token: String,
    pub refresh_token: String,
}

/// The API credentials of one storage account.
#[derive(Debug, Clone)]
pub struct ApiKeyConfig {
    pub client_id: String,
    pub secret: String,
}

/// Everything one configured storage brings along: identity, tokens,
/// credentials, the redirect candidates, and the paths remembered
/// between runs.
#[derive(Debug, Clone)]
pub struct StorageConfig {
    pub caption: String,
    pub id: String,
    pub current_path: String,
    pub tokens: TokensConfig,
    pub api_key: ApiKeyConfig,
    pub redirect_addresses: Vec<String>,
    pub download_to: String,
}

/// The whole configuration: the storages in order.
#[derive(Debug, Clone)]
pub struct AppConfig {
    pub storages: Vec<StorageConfig>,
}

impl AppConfig {
    /// The first storage with the given id, if any.
    pub fn storage_by_id(&self, id: String) -> (r: Option<&StorageConfig>)
        ensures
            match r {
                Some(s) => exists|k: int|
                    0 <= k < self.storages@.len() && self.storages@[k].id@ == id@ && *s
                        == self.storages@[k],
                None => forall|k: int|
                    0 <= k < self.storages@.len() ==> self.storages@[k].id@ != id@,
            },
    {
        let mut i: usize = 0;
        while i < self.storages.len()
            invariant
                i <= self.storages@.len(),
                forall|k: int| 0 <= k < i ==> self.storages@[k].id@ != id@,
            decreases self.storages@.len() - i,
        {
            if self.storages[i].id == id {
                return Some(&self.storages[i]);
            }
            i = i + 1;
        }
        None
    }

    /// The position of the first storage with the given id, if any:
    /// what a caller updates in place.
    pub fn storage_by_id_mut(&mut self, id: String) -> (r: Option<usize>)
        ensures
            *final(self) == *old(self),
            match r {
                Some(k) => 0 <= k < old(self).storages@.len() && old(self).storages@[
                    k as int
                ].id@ == id@ && forall|j: int| 0 <= j < k ==> old(self).storages@[j].id@ != id@,
                None => forall|k: int|
                    0 <= k < old(self).storages@.len() ==> old(self).storages@[k].id@ != id@,
            },
    {
        let mut i: usize = 0;
        while i < self.storages.len()
            invariant
                i <= self.storages@.len(),
                *self == *old(self),
                forall|k: int| 0 <= k < i ==> self.storages@[k].id@ != id@,
            decreases self.storages@.len() - i,
        {
            if self.storages[i].id == id {
                return Some(i);
            }
            i = i + 1;
        }
        None
    }
}

/// A fresh account must walk the authorization flow: it has client
/// credentials but no token of either kind yet.
pub fn auth_needed(cfg: &StorageConfig) -> (r: bool)
    ensures
        r == (cfg.api_key.client_id@.len() > 0 && cfg.api_key.secret@.len() > 0
            && cfg.tokens.token@.len() == 0 && cfg.tokens.refresh_token@.len() == 0),
{
    !cfg.api_key.client_id.as_str().is_empty() && !cfg.api_key.secret.as_str().is_empty()
        && cfg.tokens.token.as_str().is_empty() && cfg.tokens.refresh_token.as_str().is_empty()
}

} // verus!
