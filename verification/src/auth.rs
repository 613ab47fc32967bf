//! API-key authentication: the registered keys and the decision on a
//! request's `x-api-key` header.
use vstd::prelude::*;
use vstd::string::*;
use crate::errors::RustFlowError;
use crate::model::AuthenticatedClient;

verus! {

/// One registered key: the key itself, the client it belongs to and the
/// client's role.
#[derive(Clone, Debug)]
pub struct ApiKeyEntry {
    pub key_name: String,
    pub user_name: String,
    pub role: String,
}

/// The registered keys, in the order they were read; where a key occurs
/// more than once, its last entry counts.
pub struct ApiKeys {
    pub entries: Vec<ApiKeyEntry>,
}

/// The client name and role registered last for the key, if any.
pub open spec fn key_lookup(s: Seq<ApiKeyEntry>, key: Seq<char>) -> Option<(String, String)>
    decreases s.len(),
{
    if s.len() == 0 {
        None
    } else if s.last().key_name@ == key {
        Some((s.last().user_name, s.last().role))
    } else {
        key_lookup(s.drop_last(), key)
    }
}

/// What a request's key header decides: no header is unauthorized, an
/// unknown key is forbidden, a known key stands for its client.
pub open spec fn auth_decision(s: Seq<ApiKeyEntry>, header: Option<Seq<char>>, r: Result<AuthenticatedClient, RustFlowError>) -> bool {
    match header {
        None => r matches Err(RustFlowError::Unauthorized(m)) && m@ == "Missing x-api-key header"@,
        Some(k) => match key_lookup(s, k) {
            None => r matches Err(RustFlowError::Forbidden(m)) && m@ == "Invalid x-api-key header"@,
            Some((name, role)) => r matches Ok(c) && c.name == name && c.role == role,
        },
    }
}

impl ApiKeys {
    /// The registry of the given entries.
    pub fn from_entries(entries: Vec<ApiKeyEntry>) -> (k: ApiKeys)
        ensures
            k.entries@ == entries@,
    {
        ApiKeys { entries }
    }

    /// The client registered last for the key, if any.
    pub fn lookup(&self, key: &String) -> (r: Option<AuthenticatedClient>)
        ensures
            match key_lookup(self.entries@, key@) {
                None => r is None,
                Some((name, role)) => r matches Some(c) && c.name == name && c.role == role,
            },
    {
        let mut i: usize = self.entries.len();
        assert(self.entries@.take(i as int) =~= self.entries@);
        while i > 0
            invariant
                i <= self.entries.len(),
                key_lookup(self.entries@, key@) == key_lookup(self.entries@.take(i as int), key@),
            decreases i,
        {
            let ghost t = self.entries@.take(i as int);
            proof {
                assert(t.drop_last() =~= self.entries@.take(i - 1));
                assert(t.last() == self.entries@[i - 1]);
            }
            let e = &self.entries[i - 1];
            if e.key_name == *key {
                return Some(AuthenticatedClient { name: e.user_name.clone(), role: e.role.clone() });
            }
            i = i - 1;
        }
        None
    }

    /// The decision on a request's key header.
    pub fn authenticate(&self, header: Option<&str>) -> (r: Result<AuthenticatedClient, RustFlowError>)
        ensures
            auth_decision(self.entries@, match header { Some(h) => Some(h@), None => None }, r),
            header matches Some(h) ==> forall|i: int| #![trigger self.entries@[i]] 0 <= i < self.entries@.len()
                && h@ == self.entries@[i].key_name@
                && (forall|j: int| i < j < self.entries@.len() ==> #[trigger] self.entries@[j].key_name@ != self.entries@[i].key_name@)
                ==> (r matches Ok(c) && c.name == self.entries@[i].user_name && c.role == self.entries@[i].role),
    {
        match header {
            None => Err(RustFlowError::Unauthorized(String::from_str("Missing x-api-key header"))),
            Some(k) => {
                let key = String::from_str(k);
                let found = self.lookup(&key);
                let r = match found {
                    Some(client) => Ok(client),
                    None => Err(RustFlowError::Forbidden(String::from_str("Invalid x-api-key header"))),
                };
                proof {
                    assert forall|i: int| #![trigger self.entries@[i]] 0 <= i < self.entries@.len()
                        && k@ == self.entries@[i].key_name@
                        && (forall|j: int| i < j < self.entries@.len() ==> #[trigger] self.entries@[j].key_name@ != self.entries@[i].key_name@)
                        implies (r matches Ok(c) && c.name == self.entries@[i].user_name && c.role == self.entries@[i].role) by {
                        crate::laws::law_registered_key_found(self.entries@, i);
                        assert(key_lookup(self.entries@, key@) == Some((self.entries@[i].user_name, self.entries@[i].role)));
                    }
                }
                r
            },
        }
    }
}

} // verus!
