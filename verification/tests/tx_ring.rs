use stm32_eth::sim_tx_collect;
use stm32_eth::DmaEngine;
use stm32_eth::Ownership;
use stm32_eth::TxError;
use stm32_eth::TxRing;
use stm32_eth::TxRingEntry;
use stm32_eth::MTU;

fn fresh_ring(n: usize) -> TxRing {
    let mut entries = Vec::new();
    for _ in 0..n {
        entries.push(TxRingEntry::new());
    }
    TxRing::new(entries)
}

fn write_pattern(buffer: &mut [u8], length: usize, seed: u8) {
    for i in 0..length {
        buffer[i] = seed.wrapping_add(i as u8);
    }
}

#[test]
fn construction_leaves_every_descriptor_idle() {
    let ring = fresh_ring(4);
    for entry in ring.entries.iter() {
        assert_eq!(entry.desc.own, Ownership::Software);
        assert_eq!(entry.desc.frame_len, 0);
        assert!(!entry.desc.completed);
        assert_eq!(entry.buffer.len(), MTU);
    }
}

#[test]
fn ring_of_four_takes_four_frames_then_blocks() {
    let n = 4;
    let mut ring = fresh_ring(n);
    let mut dma = DmaEngine::new();
    ring.start(&mut dma);

    for (k, length) in [64usize, 1500, 1522].iter().enumerate() {
        let length = *length;
        let sent = ring.send(
            length,
            |mut buffer: Vec<u8>| {
                write_pattern(&mut buffer, length, k as u8);
                (buffer, k)
            },
            &mut dma,
        );
        assert_eq!(sent, Ok(k));
    }
    for k in 0..3 {
        assert_eq!(ring.entries[k].desc.own, Ownership::Hardware);
    }
    assert_eq!(ring.entries[3].desc.own, Ownership::Software);

    let sent = ring.send(100, |buffer: Vec<u8>| (buffer, 99usize), &mut dma);
    assert_eq!(sent, Ok(99));
    assert_eq!(ring.entries[3].desc.own, Ownership::Hardware);

    let sent = ring.send(100, |buffer: Vec<u8>| (buffer, 0usize), &mut dma);
    assert_eq!(sent, Err(TxError::WouldBlock));
}

#[test]
fn saturated_ring_fails_without_touching_descriptors() {
    let mut ring = fresh_ring(1);
    let mut dma = DmaEngine::new();
    ring.start(&mut dma);
    assert_eq!(ring.send(8, |b: Vec<u8>| (b, ()), &mut dma), Ok(()));
    let before: Vec<(Ownership, usize, bool)> = ring
        .entries
        .iter()
        .map(|e| (e.desc.own, e.desc.frame_len, e.desc.first_segment))
        .collect();
    let sent = ring.send(8, |_b: Vec<u8>| -> (Vec<u8>, ()) { panic!("filler must not run") }, &mut dma);
    assert_eq!(sent, Err(TxError::WouldBlock));
    let after: Vec<(Ownership, usize, bool)> = ring
        .entries
        .iter()
        .map(|e| (e.desc.own, e.desc.frame_len, e.desc.first_segment))
        .collect();
    assert_eq!(before, after);
    assert_eq!(ring.cursor, 0);
}

#[test]
fn oversize_send_fails_without_invoking_the_filler() {
    let mut ring = fresh_ring(2);
    let mut dma = DmaEngine::new();
    ring.start(&mut dma);
    let sent = ring.send(
        MTU + 1,
        |_b: Vec<u8>| -> (Vec<u8>, ()) { panic!("filler must not run") },
        &mut dma,
    );
    assert_eq!(sent, Err(TxError::TooLarge));
    assert_eq!(ring.cursor, 0);
    for entry in ring.entries.iter() {
        assert_eq!(entry.desc.own, Ownership::Software);
        assert_eq!(entry.desc.frame_len, 0);
    }
}

#[test]
fn send_programs_the_descriptor_and_demand_polls() {
    let mut ring = fresh_ring(2);
    let mut dma = DmaEngine::new();
    ring.start(&mut dma);
    dma.tx_running = false;
    let sent = ring.send(
        5,
        |mut buffer: Vec<u8>| {
            write_pattern(&mut buffer, 5, 7);
            (buffer, "done")
        },
        &mut dma,
    );
    assert_eq!(sent, Ok("done"));
    assert!(ring.is_running(&dma), "every send ends with a demand poll");
    let d = &ring.entries[0].desc;
    assert_eq!(d.own, Ownership::Hardware);
    assert!(d.first_segment && d.last_segment);
    assert_eq!(d.frame_len, 5);
    assert_eq!(ring.cursor, 1);
    assert_eq!(&ring.entries[0].buffer[..5], &[7, 8, 9, 10, 11]);
}

#[test]
fn collect_drains_in_order_and_suspends_on_an_empty_ring() {
    let mut ring = fresh_ring(2);
    let mut dma = DmaEngine::new();
    ring.start(&mut dma);
    assert_eq!(
        ring.send(3, |mut b: Vec<u8>| { write_pattern(&mut b, 3, 1); (b, ()) }, &mut dma),
        Ok(())
    );
    assert_eq!(
        ring.send(2, |mut b: Vec<u8>| { write_pattern(&mut b, 2, 9); (b, ()) }, &mut dma),
        Ok(())
    );
    assert_eq!(sim_tx_collect(&mut ring, &mut dma), Some(vec![1, 2, 3]));
    assert!(ring.entries[0].desc.completed);
    assert_eq!(ring.entries[0].desc.own, Ownership::Software);
    assert!(dma.tx_interrupt_pending);
    assert_eq!(sim_tx_collect(&mut ring, &mut dma), Some(vec![9, 10]));
    // nothing left: the engine suspends on the software-owned descriptor
    assert_eq!(sim_tx_collect(&mut ring, &mut dma), None);
    assert!(!ring.is_running(&dma));
    ring.demand_poll(&mut dma);
    assert!(ring.is_running(&dma));
}
