//! Which network request feeds a round of the puzzle.

use vstd::prelude::*;
use crate::random::random_index;

verus! {

/// The kinds of request a round's bytes may come from.
#[derive(Debug, Clone, Copy, PartialEq, Eq)]
pub enum SendingVariant {
    DnsA,
    DnsTxt,
    Https,
    RawUdp,
}

/// The variant numbered `n`: 0, 1 and 2 name the first three, every other
/// number the raw UDP probe.
pub open spec fn variant_for(n: usize) -> SendingVariant {
    if n == 0 {
        SendingVariant::DnsA
    } else if n == 1 {
        SendingVariant::DnsTxt
    } else if n == 2 {
        SendingVariant::Https
    } else {
        SendingVariant::RawUdp
    }
}

/// Names the variant numbered `n` (see `variant_for`).
pub fn variant_from_index(n: usize) -> (variant: SendingVariant)
    ensures
        variant == variant_for(n),
{
    match n {
        0 => SendingVariant::DnsA,
        1 => SendingVariant::DnsTxt,
        2 => SendingVariant::Https,
        _ => SendingVariant::RawUdp,
    }
}

/// Picks one of the four variants at random, each with the same chance.
pub fn random_variant() -> (variant: SendingVariant)
    ensures
        exists|n: usize| n < 4 && variant == variant_for(n),
{
    let n = random_index(0, 4);
    variant_from_index(n)
}

/// The DNS record types the puzzle asks for.
#[derive(Debug, Clone, Copy, PartialEq, Eq)]
pub enum DnsRecord {
    A,
    Txt,
}

/// A request to send, with everything it needs.
#[derive(Debug, Clone, Copy)]
pub enum PacketRequest {
    /// Ask `server` for the records of `domain`.
    DnsQuery { server: &'static str, domain: &'static str, record: DnsRecord },
    /// Fetch `url` over HTTPS.
    HttpsGet { url: &'static str },
    /// Send `payload` in one UDP datagram to `server` and read the answer.
    RawUdp { server: &'static str, payload: [u8; 6] },
}

/// The request each variant stands for: an A query to Google's resolver for
/// google.com, a TXT query to Cloudflare's for cloudflare.com, a UUID from
/// httpbin, or six bytes of noise to Cloudflare's DNS port.
pub open spec fn request_is(variant: SendingVariant, req: PacketRequest) -> bool {
    match variant {
        SendingVariant::DnsA => req matches PacketRequest::DnsQuery { server, domain, record }
            && server@ == "8.8.8.8:53"@ && domain@ == "google.com"@ && record == DnsRecord::A,
        SendingVariant::DnsTxt => req matches PacketRequest::DnsQuery { server, domain, record }
            && server@ == "1.1.1.1:53"@ && domain@ == "cloudflare.com"@ && record == DnsRecord::Txt,
        SendingVariant::Https => req matches PacketRequest::HttpsGet { url }
            && url@ == "https://httpbin.org/uuid"@,
        SendingVariant::RawUdp => req matches PacketRequest::RawUdp { server, payload }
            && server@ == "1.1.1.1:53"@ && payload@ == seq![0x13u8, 0x37u8, 0xDEu8, 0xADu8, 0xBEu8, 0xEFu8],
    }
}

/// The request that fetches a round's bytes for a variant.
pub fn packet_request(variant: SendingVariant) -> (req: PacketRequest)
    ensures
        request_is(variant, req),
{
    match variant {
        SendingVariant::DnsA => PacketRequest::DnsQuery {
            server: "8.8.8.8:53",
            domain: "google.com",
            record: DnsRecord::A,
        },
        SendingVariant::DnsTxt => PacketRequest::DnsQuery {
            server: "1.1.1.1:53",
            domain: "cloudflare.com",
            record: DnsRecord::Txt,
        },
        SendingVariant::Https => PacketRequest::HttpsGet { url: "https://httpbin.org/uuid" },
        SendingVariant::RawUdp => {
            let payload: [u8; 6] = [0x13, 0x37, 0xDE, 0xAD, 0xBE, 0xEF];
            assert(payload@ =~= seq![0x13u8, 0x37u8, 0xDEu8, 0xADu8, 0xBEu8, 0xEFu8]);
            PacketRequest::RawUdp { server: "1.1.1.1:53", payload }
        },
    }
}

} // verus!
