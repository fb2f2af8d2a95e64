use vstd::prelude::*;
use vstd::string::*;
use crate::errors::StartupError;

verus! {

/// A flat key-to-string configuration namespace, loaded once at startup and
/// read-only afterwards.
#[derive(Debug)]
pub struct ConfigMap {
    pub pairs: Vec<(String, String)>,
}

/// The value of the first pair whose key reads `key`, if any.
pub open spec fn lookup_spec(pairs: Seq<(String, String)>, key: Seq<char>) -> Option<Seq<char>>
    decreases pairs.len(),
{
    if pairs.len() == 0 {
        None
    } else if pairs[0].0@ == key {
        Some(pairs[0].1@)
    } else {
        lookup_spec(pairs.drop_first(), key)
    }
}

impl ConfigMap {
    pub fn new() -> (c: ConfigMap)
        ensures
            c.pairs@.len() == 0,
    {
        ConfigMap { pairs: Vec::new() }
    }

    /// Add one key/value pair at the end of the namespace.
    pub fn insert(&mut self, key: String, value: String)
        ensures
            final(self).pairs@ == old(self).pairs@.push((key, value)),
    {
        self.pairs.push((key, value));
    }

    /// Look a key up, returning a copy of the first matching value.
    pub fn get(&self, key: &str) -> (v: Option<String>)
        ensures
            match v {
                Some(s) => lookup_spec(self.pairs@, key@) == Some(s@),
                None => lookup_spec(self.pairs@, key@) is None,
            },
    {
        let key_s = String::from_str(key);
        let n = self.pairs.len();
        let mut i: usize = 0;
        proof {
            assert(self.pairs@.skip(0) =~= self.pairs@);
        }
        while i < n
            invariant
                i <= n,
                n == self.pairs@.len(),
                key_s@ == key@,
                lookup_spec(self.pairs@.skip(i as int), key@) == lookup_spec(self.pairs@, key@),
            decreases n - i,
        {
            let ghost pre = self.pairs@.skip(i as int);
            proof {
                assert(pre.len() > 0);
                assert(pre[0] == self.pairs@[i as int]);
                assert(pre.drop_first() =~= self.pairs@.skip(i as int + 1));
            }
            let pair = &self.pairs[i];
            let same = pair.0.eq(&key_s);
            proof {
                assert(same == (pair.0@ == key_s@));
                assert(pair.0@ == pre[0].0@);
                assert(key_s@ == key@);
            }
            if same {
                proof {
                    assert(pre[0].0@ == key@);
                    assert(lookup_spec(pre, key@) == Some(pre[0].1@));
                }
                return Some(pair.1.clone());
            }
            proof {
                assert(pre[0].0@ != key@);
                assert(lookup_spec(pre, key@) == lookup_spec(pre.drop_first(), key@));
            }
            i = i + 1;
        }
        proof {
            assert(self.pairs@.skip(n as int) =~= Seq::<(String, String)>::empty());
        }
        None
    }
}

/// The two settings every run needs: the filter command template (with its
/// `$IN`/`$OUT` placeholders) and the extra locker flags.
#[derive(Debug)]
pub struct Settings {
    pub external_command: String,
    pub lock_args: String,
}

/// Read the required keys out of the configuration. A missing
/// `external_command` or `lock_args` key is a startup-time fatal error,
/// reported before any display work begins.
pub fn load_settings(cfg: &ConfigMap) -> (r: Result<Settings, StartupError>)
    ensures
        match r {
            Ok(s) => lookup_spec(cfg.pairs@, "external_command"@) == Some(s.external_command@)
                && lookup_spec(cfg.pairs@, "lock_args"@) == Some(s.lock_args@),
            Err(e) => {
                &&& lookup_spec(cfg.pairs@, "external_command"@) is None || lookup_spec(
                    cfg.pairs@,
                    "lock_args"@,
                ) is None
                &&& e matches StartupError::MissingKey(k) && (if lookup_spec(
                    cfg.pairs@,
                    "external_command"@,
                ) is None {
                    k@ == "external_command"@
                } else {
                    k@ == "lock_args"@
                })
            },
        },
{
    let external_command = match cfg.get("external_command") {
        Some(v) => v,
        None => {
            return Err(StartupError::MissingKey(String::from_str("external_command")));
        },
    };
    let lock_args = match cfg.get("lock_args") {
        Some(v) => v,
        None => {
            return Err(StartupError::MissingKey(String::from_str("lock_args")));
        },
    };
    Ok(Settings { external_command, lock_args })
}

} // verus!
