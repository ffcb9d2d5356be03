use vstd::prelude::*;

use crate::text::str_eq;
use crate::values::{CHALLENGE_EXPIRY_SECS, MAX_ATTEMPTS};

verus! {

/// One outstanding proof-of-work challenge.
///
/// `token` is the opaque key under which the record is stored; `challenge`
/// is the string a client must extend with a nonce; `attempts` counts
/// verification attempts, successful or not.
pub struct Challenge {
    pub token: String,
    pub challenge: String,
    pub created_at: u64,
    pub attempts: u32,
}

impl Clone for Challenge {
    fn clone(&self) -> (r: Self)
        ensures
            r == *self,
    {
        Challenge {
            token: self.token.clone(),
            challenge: self.challenge.clone(),
            created_at: self.created_at,
            attempts: self.attempts,
        }
    }
}

/// Outcomes of a store operation that did not yield a live attempt.
#[derive(Clone, Copy, Debug, PartialEq, Eq, Structural)]
pub enum StoreError {
    NotFound,
    Expired,
    RateLimited,
}

/// A challenge is logically dead strictly after its lifetime has elapsed.
pub open spec fn challenge_expired(c: Challenge, now: u64) -> bool {
    now > c.created_at + CHALLENGE_EXPIRY_SECS
}

/// The first record in `s` stored under `key`, if any.
pub open spec fn find_entry(s: Seq<Challenge>, key: Seq<char>) -> Option<Challenge>
    decreases s.len(),
{
    if s.len() == 0 {
        None
    } else if s[0].token@ == key {
        Some(s[0])
    } else {
        find_entry(s.skip(1), key)
    }
}

/// No two records share a token.
pub open spec fn unique_tokens(s: Seq<Challenge>) -> bool {
    forall|i: int, j: int| 0 <= i < j < s.len() ==> s[i].token@ != s[j].token@
}

/// Every attempt counter respects the cap.
pub open spec fn bounded_attempts(s: Seq<Challenge>) -> bool {
    forall|i: int| 0 <= i < s.len() ==> s[i].attempts <= MAX_ATTEMPTS
}

/// `find_entry` succeeds exactly when some index holds the key, and under
/// unique tokens it returns the record at that index.
pub proof fn lemma_find_entry_index(s: Seq<Challenge>, key: Seq<char>)
    ensures
        (find_entry(s, key) is Some) <==> (exists|i: int|
            0 <= i < s.len() && s[i].token@ == key),
        find_entry(s, key) matches Some(c) ==> exists|i: int|
            0 <= i < s.len() && s[i] == c && s[i].token@ == key,
        unique_tokens(s) ==> forall|i: int|
            0 <= i < s.len() && s[i].token@ == key ==> find_entry(s, key) == Some(s[i]),
    decreases s.len(),
{
    if s.len() > 0 {
        lemma_find_entry_index(s.skip(1), key);
        assert(forall|i: int| 0 <= i < s.skip(1).len() ==> s.skip(1)[i] == s[i + 1]);
        if s[0].token@ != key {
            assert forall|i: int| 0 <= i < s.len() && s[i].token@ == key implies exists|j: int|
                0 <= j < s.skip(1).len() && s.skip(1)[j].token@ == key by {
                assert(s.skip(1)[i - 1] == s[i]);
            }
            if unique_tokens(s) {
                assert(unique_tokens(s.skip(1)));
            }
        }
    }
}

/// How a lookup behaves after one record is appended.
pub proof fn lemma_find_entry_push(s: Seq<Challenge>, c: Challenge, key: Seq<char>)
    ensures
        find_entry(s.push(c), key) == (if find_entry(s, key) is Some {
            find_entry(s, key)
        } else if c.token@ == key {
            Some(c)
        } else {
            None::<Challenge>
        }),
    decreases s.len(),
{
    let p = s.push(c);
    assert(p.len() == s.len() + 1);
    if s.len() == 0 {
        assert(p[0] == c);
        assert(p.skip(1) =~= Seq::<Challenge>::empty());
        assert(find_entry(p.skip(1), key) is None);
        if c.token@ == key {
            assert(find_entry(p, key) == Some(c));
        } else {
            assert(find_entry(p, key) is None);
        }
    } else {
        assert(p[0] == s[0]);
        assert(p.skip(1) =~= s.skip(1).push(c));
        lemma_find_entry_push(s.skip(1), c, key);
        if s[0].token@ == key {
            assert(find_entry(p, key) == Some(s[0]));
            assert(find_entry(s, key) == Some(s[0]));
        } else {
            assert(find_entry(p, key) == find_entry(p.skip(1), key));
            assert(find_entry(s, key) == find_entry(s.skip(1), key));
        }
    }
}

/// In-memory map from challenge token to challenge record.
///
/// The store owns every record; callers receive copies. Tokens are unique
/// and every attempt counter respects the cap.
pub struct ChallengeStore {
    entries: Vec<Challenge>,
}

impl View for ChallengeStore {
    type V = Seq<Challenge>;

    closed spec fn view(&self) -> Seq<Challenge> {
        self.entries@
    }
}

impl ChallengeStore {
    /// Well-formedness: unique tokens, capped counters.
    pub open spec fn wf(self) -> bool {
        unique_tokens(self@) && bounded_attempts(self@)
    }

    /// The record stored under `key`, if any.
    pub open spec fn spec_get(self, key: Seq<char>) -> Option<Challenge> {
        find_entry(self@, key)
    }

    /// The empty store.
    pub fn new() -> (s: Self)
        ensures
            s@ =~= Seq::<Challenge>::empty(),
            s.wf(),
    {
        ChallengeStore { entries: Vec::new() }
    }

    /// Number of records held, live or expired.
    pub fn len(&self) -> (n: usize)
        ensures
            n == self@.len(),
    {
        self.entries.len()
    }

    /// Index of the record stored under `key`, if any.
    fn find_index(&self, key: &str) -> (r: Option<usize>)
        ensures
            match r {
                Some(i) => i < self@.len() && self@[i as int].token@ == key@,
                None => self.spec_get(key@) is None,
            },
    {
        let n = self.entries.len();
        let mut i: usize = 0;
        while i < n
            invariant
                i <= n,
                n == self@.len(),
                forall|j: int| 0 <= j < i ==> self@[j].token@ != key@,
            decreases n - i,
        {
            if str_eq(self.entries[i].token.as_str(), key) {
                return Some(i);
            }
            i = i + 1;
        }
        proof {
            lemma_find_entry_index(self@, key@);
        }
        None
    }

    /// A copy-free view of the record under `key`.
    pub fn get(&self, key: &str) -> (r: Option<&Challenge>)
        requires
            self.wf(),
        ensures
            match r {
                Some(c) => self.spec_get(key@) == Some(*c),
                None => self.spec_get(key@) is None,
            },
    {
        match self.find_index(key) {
            Some(i) => {
                proof {
                    lemma_find_entry_index(self@, key@);
                }
                Some(&self.entries[i])
            },
            None => None,
        }
    }

    /// Deletes the record under `key`; every other record stays.
    pub fn remove(&mut self, key: &str)
        requires
            old(self).wf(),
        ensures
            final(self).wf(),
            final(self).spec_get(key@) is None,
            forall|k: Seq<char>| k != key@ ==> final(self).spec_get(k) == old(self).spec_get(k),
            final(self)@.len() <= old(self)@.len(),
    {
        let ghost orig = self@;
        let n = self.entries.len();
        let mut kept: Vec<Challenge> = Vec::new();
        let mut i: usize = 0;
        while i < n
            invariant
                i <= n,
                n == orig.len(),
                self@ == orig,
                unique_tokens(orig),
                bounded_attempts(orig),
                unique_tokens(kept@),
                bounded_attempts(kept@),
                kept@.len() <= i,
                forall|k: Seq<char>|
                    find_entry(kept@, k) == (if k == key@ {
                        None::<Challenge>
                    } else {
                        find_entry(orig.take(i as int), k)
                    }),
            decreases n - i,
        {
            let ghost prefix = orig.take(i as int);
            assert(orig.take(i + 1) =~= prefix.push(orig[i as int]));
            let keep = !str_eq(self.entries[i].token.as_str(), key);
            proof {
                lemma_find_entry_index(prefix, orig[i as int].token@);
                lemma_find_entry_index(orig, orig[i as int].token@);
                assert forall|k: Seq<char>| true implies find_entry(prefix.push(orig[i as int]), k)
                    == (if find_entry(prefix, k) is Some {
                    find_entry(prefix, k)
                } else if orig[i as int].token@ == k {
                    Some(orig[i as int])
                } else {
                    None::<Challenge>
                }) by {
                    lemma_find_entry_push(prefix, orig[i as int], k);
                }
                // The token at index i does not occur among the kept records.
                if find_entry(kept@, orig[i as int].token@) is Some {
                    lemma_find_entry_index(kept@, orig[i as int].token@);
                    assert(forall|j: int| 0 <= j < i ==> prefix[j] == orig[j]);
                    assert(false);
                }
            }
            if keep {
                let c = self.entries[i].clone();
                let ghost kept_before = kept@;
                kept.push(c);
                proof {
                    assert forall|k: Seq<char>| true implies find_entry(kept@, k) == (if k == key@ {
                        None::<Challenge>
                    } else {
                        find_entry(orig.take(i + 1), k)
                    }) by {
                        lemma_find_entry_push(kept_before, c, k);
                    }
                    lemma_find_entry_index(kept_before, c.token@);
                    assert forall|a: int, b: int|
                        0 <= a < b < kept@.len() implies kept@[a].token@ != kept@[b].token@ by {
                        if b == kept@.len() - 1 {
                            if kept@[a].token@ == c.token@ {
                                lemma_find_entry_index(kept_before, c.token@);
                            }
                        }
                    }
                }
            } else {
                proof {
                    assert(orig[i as int].token@ == key@);
                    assert forall|k: Seq<char>| true implies find_entry(kept@, k) == (if k == key@ {
                        None::<Challenge>
                    } else {
                        find_entry(orig.take(i + 1), k)
                    }) by {}
                }
            }
            i = i + 1;
        }
        proof {
            assert(orig.take(n as int) =~= orig);
        }
        self.entries = kept;
    }

    /// Stores `ch` under its token, replacing any record already there.
    pub fn insert(&mut self, ch: Challenge)
        requires
            old(self).wf(),
            ch.attempts <= MAX_ATTEMPTS,
        ensures
            final(self).wf(),
            final(self).spec_get(ch.token@) == Some(ch),
            forall|k: Seq<char>| k != ch.token@ ==> final(self).spec_get(k) == old(self).spec_get(
                k,
            ),
            final(self)@.len() <= old(self)@.len() + 1,
    {
        let ghost pre = self@;
        self.remove(ch.token.as_str());
        let ghost mid = self@;
        let ghost tok = ch.token@;
        self.entries.push(ch);
        proof {
            assert(self@ =~= mid.push(ch));
            assert forall|k: Seq<char>| true implies find_entry(mid.push(ch), k) == (if find_entry(
                mid,
                k,
            ) is Some {
                find_entry(mid, k)
            } else if tok == k {
                Some(ch)
            } else {
                None::<Challenge>
            }) by {
                lemma_find_entry_push(mid, ch, k);
            }
            lemma_find_entry_index(mid, tok);
            assert forall|a: int, b: int|
                0 <= a < b < self@.len() implies self@[a].token@ != self@[b].token@ by {
                if b == self@.len() - 1 {
                    if self@[a].token@ == tok {
                        lemma_find_entry_index(mid, tok);
                    }
                }
            }
        }
    }

    /// Checks lifetime, then the attempt cap, then charges one attempt and
    /// returns a copy of the charged record. An expired record is deleted;
    /// a rate-limited one is left untouched (its counter is not charged).
    pub fn record_attempt(&mut self, key: &str, now: u64) -> (r: Result<Challenge, StoreError>)
        requires
            old(self).wf(),
        ensures
            final(self).wf(),
            forall|k: Seq<char>| k != key@ ==> final(self).spec_get(k) == old(self).spec_get(k),
            match old(self).spec_get(key@) {
                None => r == Err::<Challenge, StoreError>(StoreError::NotFound) && final(self)@
                    == old(self)@,
                Some(c) => {
                    if challenge_expired(c, now) {
                        &&& r == Err::<Challenge, StoreError>(StoreError::Expired)
                        &&& final(self).spec_get(key@) is None
                    } else if c.attempts >= MAX_ATTEMPTS {
                        &&& r == Err::<Challenge, StoreError>(StoreError::RateLimited)
                        &&& final(self)@ == old(self)@
                    } else {
                        &&& r == Ok::<Challenge, StoreError>(
                            (Challenge { attempts: (c.attempts + 1) as u32, ..c }),
                        )
                        &&& final(self).spec_get(key@) == Some(
                            (Challenge { attempts: (c.attempts + 1) as u32, ..c }),
                        )
                    }
                },
            },
    {
        let found = match self.find_index(key) {
            None => {
                return Err(StoreError::NotFound);
            },
            Some(i) => {
                proof {
                    lemma_find_entry_index(self@, key@);
                }
                self.entries[i].clone()
            },
        };
        if found.created_at < now && now - found.created_at > CHALLENGE_EXPIRY_SECS {
            self.remove(key);
            return Err(StoreError::Expired);
        }
        if found.attempts >= MAX_ATTEMPTS {
            return Err(StoreError::RateLimited);
        }
        let charged = Challenge {
            token: found.token,
            challenge: found.challenge,
            created_at: found.created_at,
            attempts: found.attempts + 1,
        };
        let copy = charged.clone();
        self.insert(charged);
        Ok(copy)
    }

    /// Deletes every record whose lifetime has elapsed at `now`; live
    /// records stay exactly as they were.
    pub fn sweep(&mut self, now: u64)
        requires
            old(self).wf(),
        ensures
            final(self).wf(),
            forall|k: Seq<char>|
                final(self).spec_get(k) == (match old(self).spec_get(k) {
                    Some(c) => if challenge_expired(c, now) {
                        None::<Challenge>
                    } else {
                        Some(c)
                    },
                    None => None::<Challenge>,
                }),
            final(self)@.len() <= old(self)@.len(),
    {
        let ghost orig = self@;
        let n = self.entries.len();
        let mut kept: Vec<Challenge> = Vec::new();
        let mut i: usize = 0;
        while i < n
            invariant
                i <= n,
                n == orig.len(),
                self@ == orig,
                unique_tokens(orig),
                bounded_attempts(orig),
                unique_tokens(kept@),
                bounded_attempts(kept@),
                kept@.len() <= i,
                forall|k: Seq<char>|
                    find_entry(kept@, k) == (match find_entry(orig.take(i as int), k) {
                        Some(c) => if challenge_expired(c, now) {
                            None::<Challenge>
                        } else {
                            Some(c)
                        },
                        None => None::<Challenge>,
                    }),
            decreases n - i,
        {
            let ghost prefix = orig.take(i as int);
            assert(orig.take(i + 1) =~= prefix.push(orig[i as int]));
            let created_at = self.entries[i].created_at;
            let keep = !(created_at < now && now - created_at > CHALLENGE_EXPIRY_SECS);
            proof {
                assert forall|k: Seq<char>| true implies find_entry(prefix.push(orig[i as int]), k)
                    == (if find_entry(prefix, k) is Some {
                    find_entry(prefix, k)
                } else if orig[i as int].token@ == k {
                    Some(orig[i as int])
                } else {
                    None::<Challenge>
                }) by {
                    lemma_find_entry_push(prefix, orig[i as int], k);
                }
                // No earlier record carries the token at index i.
                if find_entry(prefix, orig[i as int].token@) is Some {
                    lemma_find_entry_index(prefix, orig[i as int].token@);
                    assert(forall|j: int| 0 <= j < i ==> prefix[j] == orig[j]);
                    assert(false);
                }
            }
            if keep {
                let c = self.entries[i].clone();
                let ghost kept_before = kept@;
                kept.push(c);
                proof {
                    assert forall|k: Seq<char>| true implies find_entry(kept@, k) == (match
                        find_entry(orig.take(i + 1), k) {
                        Some(e) => if challenge_expired(e, now) {
                            None::<Challenge>
                        } else {
                            Some(e)
                        },
                        None => None::<Challenge>,
                    }) by {
                        lemma_find_entry_push(kept_before, c, k);
                    }
                    lemma_find_entry_index(kept_before, c.token@);
                    assert forall|a: int, b: int|
                        0 <= a < b < kept@.len() implies kept@[a].token@ != kept@[b].token@ by {
                        if b == kept@.len() - 1 {
                            if kept@[a].token@ == c.token@ {
                                lemma_find_entry_index(kept_before, c.token@);
                            }
                        }
                    }
                }
            }
            i = i + 1;
        }
        proof {
            assert(orig.take(n as int) =~= orig);
        }
        self.entries = kept;
    }
}

} // verus!
