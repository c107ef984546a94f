//! The transport profile: what a client is made with, which headers follow
//! from it, and which of its values can be sent at all.

use crate::error::ConfiguredHeader;
use crate::headers::{
    header_entries,
    header_text,
    is_header_name,
    is_text,
    is_text_char,
    lemma_text_bytes,
    new_headers,
    put_header,
    text_of,
};
use crate::jupiter_client::{IntegratorFee, YellowstoneConfig};
use crate::numeric::{decimal_text, format_amount, is_digit, lemma_decimal_text_digits};
use crate::types::JupiterApiType;
use reqwest::header::HeaderMap;
use vstd::prelude::*;
use vstd::string::*;
use vstd::utf8::*;

verus! {

/// The model of an `IntegratorFee`.
pub struct FeeModel {
    pub bps: u16,
    pub account: Seq<char>,
}

/// The model of a `YellowstoneConfig`.
pub struct FeedModel {
    pub endpoint: Seq<char>,
    pub token: Seq<char>,
}

/// What a client was made with: the model of a `JupiterClient`.
pub struct TransportProfile {
    pub base_url: Seq<char>,
    pub credential: Option<Seq<char>>,
    pub tier: JupiterApiType,
    pub integrator_fee: Option<FeeModel>,
    pub feed: Option<FeedModel>,
    pub strict_routes: bool,
}

/// The marker that names a tier on the wire.
pub open spec fn tier_tag(tier: JupiterApiType) -> Seq<char> {
    match tier {
        JupiterApiType::Public => "public"@,
        JupiterApiType::Pro => "pro"@,
        JupiterApiType::Lite => "lite"@,
        JupiterApiType::SelfHosted => "self-hosted"@,
        JupiterApiType::Ultra => "ultra"@,
    }
}

impl TransportProfile {
    /// The value of the header `name` on every request of this profile, if
    /// the profile sends that header at all.
    ///
    /// The tier marker, the content type and the client identifier are
    /// always sent; the bearer credential, the two integrator fee headers
    /// and the two feed headers only where the profile has them.
    pub open spec fn header(self, name: Seq<char>) -> Option<Seq<char>> {
        if name == "authorization"@ {
            match self.credential {
                Some(key) => Some("Bearer "@ + key),
                None => None,
            }
        } else if name == "x-api-type"@ {
            Some(tier_tag(self.tier))
        } else if name == "x-integrator-fee"@ {
            match self.integrator_fee {
                Some(fee) => Some(decimal_text(fee.bps as nat)),
                None => None,
            }
        } else if name == "x-integrator-account"@ {
            match self.integrator_fee {
                Some(fee) => Some(fee.account),
                None => None,
            }
        } else if name == "x-yellowstone-endpoint"@ {
            match self.feed {
                Some(feed) => Some(feed.endpoint),
                None => None,
            }
        } else if name == "x-yellowstone-token"@ {
            match self.feed {
                Some(feed) => Some(feed.token),
                None => None,
            }
        } else if name == "content-type"@ {
            Some("application/json"@)
        } else if name == "user-agent"@ {
            Some("Jupiter-Arbitrage-Bot/1.0"@)
        } else {
            None
        }
    }

    /// The headers of this profile as a header map holds them.
    pub open spec fn headers(self) -> Map<Seq<char>, Seq<u8>> {
        Map::new(
            |name: Seq<char>| self.header(name) is Some,
            |name: Seq<char>| encode_utf8(self.header(name)->0),
        )
    }

    /// The first configured value that cannot be sent as a header, in the
    /// order in which the headers are written; `None` if all of them can.
    pub open spec fn first_unfit(self) -> Option<ConfiguredHeader> {
        if self.credential is Some && !is_text(self.credential->0) {
            Some(ConfiguredHeader::Authorization)
        } else if self.integrator_fee is Some && !is_text(self.integrator_fee->0.account) {
            Some(ConfiguredHeader::IntegratorAccount)
        } else if self.feed is Some && !is_text(self.feed->0.endpoint) {
            Some(ConfiguredHeader::YellowstoneEndpoint)
        } else if self.feed is Some && !is_text(self.feed->0.token) {
            Some(ConfiguredHeader::YellowstoneToken)
        } else {
            None
        }
    }

    /// The names of the headers that this profile sends.
    pub open spec fn header_names(self) -> Set<Seq<char>> {
        set!["x-api-type"@, "content-type"@, "user-agent"@].union(
            if self.credential is Some {
                set!["authorization"@]
            } else {
                Set::empty()
            },
        ).union(
            if self.integrator_fee is Some {
                set!["x-integrator-fee"@, "x-integrator-account"@]
            } else {
                Set::empty()
            },
        ).union(
            if self.feed is Some {
                set!["x-yellowstone-endpoint"@, "x-yellowstone-token"@]
            } else {
                Set::empty()
            },
        )
    }
}

/// The model of an integrator fee.
pub open spec fn fee_model(fee: Option<IntegratorFee>) -> Option<FeeModel> {
    match fee {
        Some(fee) => Some(FeeModel { bps: fee.fee_bps, account: fee.fee_account@ }),
        None => None,
    }
}

/// The model of a feed configuration.
pub open spec fn feed_model(feed: Option<YellowstoneConfig>) -> Option<FeedModel> {
    match feed {
        Some(feed) => Some(FeedModel { endpoint: feed.grpc_endpoint@, token: feed.x_token@ }),
        None => None,
    }
}

/// The profile that the arguments of a constructor describe.
pub open spec fn profile_of(
    base_url: String,
    api_key: Option<String>,
    api_type: JupiterApiType,
    integrator_fee: Option<IntegratorFee>,
    yellowstone_config: Option<YellowstoneConfig>,
) -> TransportProfile {
    TransportProfile {
        base_url: base_url@,
        credential: text_of(api_key),
        tier: api_type,
        integrator_fee: fee_model(integrator_fee),
        feed: feed_model(yellowstone_config),
        strict_routes: false,
    }
}

/// The eight header names are names as this crate writes them. Their
/// lengths tell them apart, but for the two of length ten, which differ in
/// their first character.
pub proof fn lemma_header_names()
    ensures
        is_header_name("authorization"@),
        is_header_name("x-api-type"@),
        is_header_name("x-integrator-fee"@),
        is_header_name("x-integrator-account"@),
        is_header_name("x-yellowstone-endpoint"@),
        is_header_name("x-yellowstone-token"@),
        is_header_name("content-type"@),
        is_header_name("user-agent"@),
        "x-api-type"@ != "user-agent"@,
        "authorization"@.len() == 13,
        "x-api-type"@.len() == 10,
        "x-integrator-fee"@.len() == 16,
        "x-integrator-account"@.len() == 20,
        "x-yellowstone-endpoint"@.len() == 22,
        "x-yellowstone-token"@.len() == 19,
        "content-type"@.len() == 12,
        "user-agent"@.len() == 10,
{
    reveal_strlit("authorization");
    reveal_strlit("x-api-type");
    reveal_strlit("x-integrator-fee");
    reveal_strlit("x-integrator-account");
    reveal_strlit("x-yellowstone-endpoint");
    reveal_strlit("x-yellowstone-token");
    reveal_strlit("content-type");
    reveal_strlit("user-agent");
    assert("x-api-type"@[0] != "user-agent"@[0]);
}

/// Text joined to text is text, and only then.
pub proof fn lemma_text_concat(a: Seq<char>, b: Seq<char>)
    ensures
        is_text(a + b) <==> is_text(a) && is_text(b),
{
    let ab = a + b;
    if is_text(a) && is_text(b) {
        assert forall|i: int| 0 <= i < ab.len() implies is_text_char(
            #[trigger] ab[i],
        ) by {
            if i < a.len() {
                assert(ab[i] == a[i]);
            } else {
                assert(ab[i] == b[i - a.len()]);
            }
        }
    }
    if is_text(ab) {
        assert forall|i: int| 0 <= i < a.len() implies is_text_char(
            #[trigger] a[i],
        ) by {
            assert(ab[i] == a[i]);
        }
        assert forall|i: int| 0 <= i < b.len() implies is_text_char(
            #[trigger] b[i],
        ) by {
            assert(ab[i + a.len()] == b[i]);
        }
    }
}

/// The fixed header values are text.
pub proof fn lemma_fixed_values_are_text()
    ensures
        is_text("Bearer "@),
        is_text("application/json"@),
        is_text("Jupiter-Arbitrage-Bot/1.0"@),
        forall|tier: JupiterApiType| is_text(#[trigger] tier_tag(tier)),
{
    reveal_strlit("Bearer ");
    reveal_strlit("application/json");
    reveal_strlit("Jupiter-Arbitrage-Bot/1.0");
    reveal_strlit("public");
    reveal_strlit("pro");
    reveal_strlit("lite");
    reveal_strlit("self-hosted");
    reveal_strlit("ultra");
}

/// The decimal text of a number is text.
pub proof fn lemma_decimal_text_is_text(n: nat)
    ensures
        is_text(decimal_text(n)),
{
    lemma_decimal_text_digits(n);
    let t = decimal_text(n);
    assert forall|i: int| 0 <= i < t.len() implies is_text_char(
        #[trigger] t[i],
    ) by {
        assert(is_digit(t[i]));
    }
}

fn tier_marker(tier: JupiterApiType) -> (r: &'static str)
    ensures
        r@ == tier_tag(tier),
{
    match tier {
        JupiterApiType::Public => "public",
        JupiterApiType::Pro => "pro",
        JupiterApiType::Lite => "lite",
        JupiterApiType::SelfHosted => "self-hosted",
        JupiterApiType::Ultra => "ultra",
    }
}

/// Writes the headers of a profile, or names the first configured value
/// that cannot be a header.
pub(crate) fn build_headers(
    base_url: &String,
    api_key: &Option<String>,
    api_type: JupiterApiType,
    integrator_fee: &Option<IntegratorFee>,
    yellowstone_config: &Option<YellowstoneConfig>,
) -> (r: Result<HeaderMap, ConfiguredHeader>)
    ensures
        ({
            let profile = profile_of(
                *base_url,
                *api_key,
                api_type,
                *integrator_fee,
                *yellowstone_config,
            );
            match r {
                Ok(headers) => profile.first_unfit() is None && header_entries(headers)
                    == profile.headers(),
                Err(unfit) => profile.first_unfit() == Some(unfit),
            }
        }),
{
    let ghost profile = profile_of(
        *base_url,
        *api_key,
        api_type,
        *integrator_fee,
        *yellowstone_config,
    );
    proof {
        lemma_header_names();
        lemma_fixed_values_are_text();
    }
    let mut headers = new_headers();
    if let Some(key) = api_key {
        let mut bearer = "Bearer ".to_owned();
        bearer.append(key.as_str());
        proof {
            lemma_text_concat("Bearer "@, key@);
        }
        if !put_header(&mut headers, "authorization", bearer.as_str()) {
            return Err(ConfiguredHeader::Authorization);
        }
    }
    let tagged = put_header(&mut headers, "x-api-type", tier_marker(api_type));
    assert(tagged);
    if let Some(fee) = integrator_fee {
        let bps = format_amount(fee.fee_bps as u64);
        proof {
            lemma_decimal_text_is_text(fee.fee_bps as nat);
        }
        let written = put_header(&mut headers, "x-integrator-fee", bps.as_str());
        assert(written);
        if !put_header(&mut headers, "x-integrator-account", fee.fee_account.as_str()) {
            return Err(ConfiguredHeader::IntegratorAccount);
        }
    }
    if let Some(feed) = yellowstone_config {
        if !put_header(&mut headers, "x-yellowstone-endpoint", feed.grpc_endpoint.as_str()) {
            return Err(ConfiguredHeader::YellowstoneEndpoint);
        }
        if !put_header(&mut headers, "x-yellowstone-token", feed.x_token.as_str()) {
            return Err(ConfiguredHeader::YellowstoneToken);
        }
    }
    let typed = put_header(&mut headers, "content-type", "application/json");
    assert(typed);
    let named = put_header(&mut headers, "user-agent", "Jupiter-Arbitrage-Bot/1.0");
    assert(named);
    assert(header_entries(headers) =~= profile.headers());
    Ok(headers)
}

/// Reading a header back from the headers of a profile gives the value the
/// profile has for it, whatever the name.
pub proof fn lemma_headers_read_back(profile: TransportProfile, name: Seq<char>)
    requires
        profile.first_unfit() is None,
    ensures
        header_text(profile.headers(), name) == profile.header(name),
{
    lemma_header_names();
    lemma_fixed_values_are_text();
    match profile.header(name) {
        Some(value) => {
            if profile.credential is Some {
                lemma_text_concat("Bearer "@, profile.credential->0);
            }
            if profile.integrator_fee is Some {
                lemma_decimal_text_is_text(profile.integrator_fee->0.bps as nat);
            }
            assert(is_text(value));
            lemma_text_bytes(value);
        },
        None => {},
    }
}

/// A profile sends the three fixed headers, the bearer header exactly when
/// it has a credential, the two fee headers exactly when it has an
/// integrator fee, the two feed headers exactly when it has a feed, and
/// nothing else.
pub proof fn lemma_header_set(profile: TransportProfile)
    ensures
        profile.headers().dom() == profile.header_names(),
{
    lemma_header_names();
    assert(profile.headers().dom() =~= profile.header_names());
}

} // verus!
