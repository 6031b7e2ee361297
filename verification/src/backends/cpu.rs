//! Sequential execution of the pipeline layers on the CPU.
use vstd::prelude::*;
use crate::bus::{InputPins, SystemBus};
use crate::chips::{Chip, LogicChip};
use crate::motherboard::{
    chips_ok, flatten_layers, lemma_flatten_prefix, lemma_next_chip_ok, lemma_run_push, run_chips,
};

verus! {

/// Run every chip of every layer, in order, on the bus.
pub fn execute_layers_cpu(layers: &[Vec<Chip>], pins: &InputPins, bus: &mut SystemBus)
    requires
        chips_ok(flatten_layers(layers@.map_values(|l: Vec<Chip>| l@)), *pins, *old(bus)),
    ensures
        *final(bus) == run_chips(flatten_layers(layers@.map_values(|l: Vec<Chip>| l@)), *pins, *old(bus)),
{
    let ghost g = *bus;
    let ghost seqs = layers@.map_values(|l: Vec<Chip>| l@);
    let ghost all = flatten_layers(seqs);
    let n = layers.len();
    let mut i: usize = 0;
    while i < n
        invariant
            0 <= i <= n,
            n == layers@.len(),
            seqs == layers@.map_values(|l: Vec<Chip>| l@),
            all == flatten_layers(seqs),
            chips_ok(all, *pins, g),
            *bus == run_chips(flatten_layers(seqs.take(i as int)), *pins, g),
        decreases n - i,
    {
        let layer = &layers[i];
        let ghost pre = flatten_layers(seqs.take(i as int));
        proof {
            lemma_flatten_prefix(seqs, i + 1);
            assert(seqs.take(i + 1).drop_last() =~= seqs.take(i as int));
            assert(seqs[i as int] == layer@);
        }
        let m = layer.len();
        let mut j: usize = 0;
        while j < m
            invariant
                0 <= j <= m,
                m == layer@.len(),
                layer@ == seqs[i as int],
                chips_ok(all, *pins, g),
                pre + layer@ == flatten_layers(seqs.take(i + 1)),
                all.take((pre + layer@).len() as int) == pre + layer@,
                (pre + layer@).len() <= all.len(),
                *bus == run_chips(pre + layer@.take(j as int), *pins, g),
            decreases m - j,
        {
            let chip = &layer[j];
            proof {
                let cur = pre + layer@.take(j as int);
                assert(cur.push(*chip) =~= pre + layer@.take(j + 1));
                assert(all.take(cur.len() + 1int) =~= (pre + layer@).take(cur.len() + 1int));
                assert((pre + layer@).take(cur.len() + 1int) =~= cur.push(*chip));
                lemma_next_chip_ok(all, cur, *chip, *pins, g);
                lemma_run_push(cur, *chip, *pins, g);
            }
            chip.tick(pins, bus);
            j = j + 1;
        }
        proof {
            assert(layer@.take(m as int) =~= layer@);
        }
        i = i + 1;
    }
    proof {
        assert(seqs.take(n as int) =~= seqs);
    }
}

} // verus!
