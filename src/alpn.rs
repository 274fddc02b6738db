use vstd::prelude::*;

verus! {

/// A protocol name can stand in an ALPN list when it is 1 to 255 bytes long.
pub open spec fn valid_protocol_name(p: Seq<u8>) -> bool {
    1 <= p.len() <= 255
}

/// The ALPN wire format: each protocol name preceded by its length in one byte.
pub open spec fn alpn_wire(protos: Seq<Seq<u8>>) -> Seq<u8>
    decreases protos.len(),
{
    if protos.len() == 0 {
        Seq::empty()
    } else {
        let last = protos.last();
        alpn_wire(protos.drop_last()).push(last.len() as u8) + last
    }
}

/// `h2` as bytes.
pub open spec fn h2_name() -> Seq<u8> {
    seq![104u8, 50u8]
}

/// `http/1.1` as bytes.
pub open spec fn http11_name() -> Seq<u8> {
    seq![104u8, 116u8, 116u8, 112u8, 47u8, 49u8, 46u8, 49u8]
}

/// The protocols offered: `h2,http/1.1` when HTTP/2 is wanted, else `http/1.1` alone.
pub open spec fn alpn_protocols(h2: bool) -> Seq<Seq<u8>> {
    if h2 {
        seq![h2_name(), http11_name()]
    } else {
        seq![http11_name()]
    }
}

pub open spec fn vec_views(v: Seq<Vec<u8>>) -> Seq<Seq<u8>> {
    v.map_values(|p: Vec<u8>| p@)
}

/// Encodes a list of protocol names in the ALPN wire format, or `None` when a
/// name is empty or longer than 255 bytes.
pub fn encode_alpn(protos: &Vec<Vec<u8>>) -> (r: Option<Vec<u8>>)
    ensures
        r.is_some() <==> forall|i: int| 0 <= i < protos@.len() ==> valid_protocol_name(
            #[trigger] protos@[i]@,
        ),
        r.is_some() ==> r.unwrap()@ == alpn_wire(vec_views(protos@)),
{
    let mut out: Vec<u8> = Vec::new();
    let mut i: usize = 0;
    while i < protos.len()
        invariant
            i <= protos@.len(),
            forall|j: int| 0 <= j < i ==> valid_protocol_name(#[trigger] protos@[j]@),
            out@ == alpn_wire(vec_views(protos@).subrange(0, i as int)),
        decreases protos@.len() - i,
    {
        let p = &protos[i];
        if p.len() == 0 || p.len() > 255 {
            return None;
        }
        out.push(p.len() as u8);
        let mut k: usize = 0;
        let ghost before = out@;
        while k < p.len()
            invariant
                k <= p@.len(),
                out@ == before + p@.subrange(0, k as int),
            decreases p@.len() - k,
        {
            out.push(p[k]);
            k = k + 1;
            assert(out@ =~= before + p@.subrange(0, k as int));
        }
        proof {
            let s = vec_views(protos@);
            assert(s.subrange(0, i + 1).drop_last() =~= s.subrange(0, i as int));
            assert(p@.subrange(0, p@.len() as int) =~= p@);
        }
        i = i + 1;
    }
    proof {
        assert(vec_views(protos@).subrange(0, i as int) =~= vec_views(protos@));
    }
    Some(out)
}

/// The ALPN list offered for a connection, in wire format.
pub fn alpn_protos(h2: bool) -> (r: Vec<u8>)
    ensures
        r@ == alpn_wire(alpn_protocols(h2)),
{
    let h2_proto: Vec<u8> = vec![104u8, 50u8];
    let http11: Vec<u8> = vec![104u8, 116u8, 116u8, 112u8, 47u8, 49u8, 46u8, 49u8];
    let mut protos: Vec<Vec<u8>> = Vec::new();
    if h2 {
        protos.push(h2_proto);
    }
    protos.push(http11);
    proof {
        assert(h2_proto@ =~= h2_name());
        assert(http11@ =~= http11_name());
        assert(vec_views(protos@) =~= alpn_protocols(h2));
    }
    let encoded = encode_alpn(&protos);
    encoded.unwrap()
}

} // verus!
