//! Package-provider selection: the providers a platform prefers are probed in
//! order, and the first one present on the host is used.

use vstd::prelude::*;
use vstd::string::StringExecFns;
use crate::error::Error;
use crate::target::Platform;

verus! {

/// The package managers.
#[derive(Debug, Clone, Copy, PartialEq, Eq)]
pub enum Providers {
    Apt,
    Dnf,
    Homebrew,
    Macports,
    Pkg,
    Ports,
    Yum,
}

/// What to do next while selecting a provider.
#[derive(Debug, Clone, Copy, PartialEq, Eq)]
pub enum ProviderStep {
    /// Probe whether this provider is present on the host.
    Probe(Providers),
    /// Use this provider.
    Use(Providers),
}

/// `k` is the first position at which a probe found its provider present.
pub open spec fn first_present(answers: Seq<bool>, k: int) -> bool {
    0 <= k < answers.len() && answers[k] && forall|j: int| 0 <= j < k ==> !#[trigger] answers[j]
}

/// The next step, given the providers in order of preference and the answers
/// of the probes made so far (one per provider, in the same order); `None`
/// when every provider was probed and none is present.
pub open spec fn next_provider_step(providers: Seq<Providers>, answers: Seq<bool>) -> Option<
    ProviderStep,
> {
    if exists|k: int| first_present(answers, k) {
        let k = choose|k: int| first_present(answers, k);
        Some(ProviderStep::Use(providers[k]))
    } else if answers.len() < providers.len() {
        Some(ProviderStep::Probe(providers[answers.len() as int]))
    } else {
        None
    }
}

/// The providers that each platform prefers, most preferred first.
pub open spec fn preferred_providers(p: Platform) -> Seq<Providers> {
    match p {
        Platform::Centos => seq![Providers::Yum],
        Platform::Redhat => seq![Providers::Yum],
        Platform::Fedora => seq![Providers::Dnf, Providers::Yum],
        Platform::Debian => seq![Providers::Apt],
        Platform::Ubuntu => seq![Providers::Apt],
        Platform::Freebsd => seq![Providers::Pkg, Providers::Ports],
        Platform::Macos => seq![Providers::Homebrew, Providers::Macports],
    }
}

/// The providers that `p` prefers, most preferred first.
pub fn preferred(p: Platform) -> (r: Vec<Providers>)
    ensures
        r@ == preferred_providers(p),
{
    let r = match p {
        Platform::Centos => vec![Providers::Yum],
        Platform::Redhat => vec![Providers::Yum],
        Platform::Fedora => vec![Providers::Dnf, Providers::Yum],
        Platform::Debian => vec![Providers::Apt],
        Platform::Ubuntu => vec![Providers::Apt],
        Platform::Freebsd => vec![Providers::Pkg, Providers::Ports],
        Platform::Macos => vec![Providers::Homebrew, Providers::Macports],
    };
    assert(r@ =~= preferred_providers(p));
    r
}

/// Decides the next step of provider selection from the answers of the probes
/// made so far: use the first provider found present, else probe the next
/// one; when all were probed and none is present, fail.
pub fn default_provider(providers: &Vec<Providers>, answers: &Vec<bool>) -> (r: Result<
    ProviderStep,
    Error,
>)
    requires
        answers@.len() <= providers@.len(),
    ensures
        match next_provider_step(providers@, answers@) {
            Some(s) => r == Ok::<ProviderStep, Error>(s),
            None => (r matches Err(Error::Generic(m)) && m@ == "No package providers are available"@),
        },
{
    let mut i: usize = 0;
    while i < answers.len()
        invariant
            i <= answers@.len(),
            answers@.len() <= providers@.len(),
            forall|j: int| 0 <= j < i ==> !#[trigger] answers@[j],
        decreases answers@.len() - i,
    {
        if answers[i] {
            assert(first_present(answers@, i as int));
            proof {
                let k = choose|k: int| first_present(answers@, k);
                if k < i {
                    assert(!answers@[k]);
                } else if k > i {
                    assert(!answers@[i as int]);
                }
            }
            return Ok(ProviderStep::Use(providers[i]));
        }
        i = i + 1;
    }
    assert(!exists|k: int| first_present(answers@, k)) by {
        if exists|k: int| first_present(answers@, k) {
            let k = choose|k: int| first_present(answers@, k);
            assert(!answers@[k]);
        }
    }
    if answers.len() < providers.len() {
        Ok(ProviderStep::Probe(providers[answers.len()]))
    } else {
        Err(Error::Generic(String::from_str("No package providers are available")))
    }
}

/// When, of the providers in order, only the one at position `n` is present,
/// selection probes the providers before it, one by one and in order, and
/// then uses that one.
pub proof fn lemma_provider_fallback(providers: Seq<Providers>, n: int)
    requires
        0 <= n < providers.len(),
    ensures
        forall|k: int|
            0 <= k <= n ==> next_provider_step(providers, Seq::new(k as nat, |i: int| false))
                == Some(ProviderStep::Probe(providers[k])),
        next_provider_step(providers, Seq::new((n + 1) as nat, |i: int| i == n)) == Some(
            ProviderStep::Use(providers[n]),
        ),
{
    assert forall|k: int| 0 <= k <= n implies next_provider_step(
        providers,
        Seq::new(k as nat, |i: int| false),
    ) == Some(ProviderStep::Probe(providers[k])) by {
        let a = Seq::new(k as nat, |i: int| false);
        if exists|m: int| first_present(a, m) {
            let m = choose|m: int| first_present(a, m);
            assert(!a[m]);
        }
    }
    let a = Seq::new((n + 1) as nat, |i: int| i == n);
    assert(first_present(a, n));
    let m = choose|m: int| first_present(a, m);
    if m < n {
        assert(!a[m]);
    } else if m > n {
        assert(!a[n]);
    }
}

} // verus!
