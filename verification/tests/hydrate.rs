use gmail_archiver::hydrate::Hydrator;

#[test]
fn a_new_queue_is_empty() {
    let queue: Hydrator<u32> = Hydrator::new(3);
    assert_eq!(queue.in_flight(), 0);
    assert!(queue.has_room());
    let (queue, ready) = queue.pop_ready();
    assert_eq!(ready, None);
    assert_eq!(queue.in_flight(), 0);
}

#[test]
fn tickets_are_handed_out_in_turn() {
    let queue: Hydrator<u32> = Hydrator::new(3);
    let (queue, a) = queue.launch();
    let (queue, b) = queue.launch();
    let (queue, c) = queue.launch();
    assert_eq!((a, b, c), (Some(0), Some(1), Some(2)));
    assert_eq!(queue.in_flight(), 3);
    assert!(!queue.has_room());
}

#[test]
fn a_full_queue_launches_nothing() {
    let queue: Hydrator<u32> = Hydrator::new(2);
    let (queue, _) = queue.launch();
    let (queue, _) = queue.launch();
    let (queue, refused) = queue.launch();
    assert_eq!(refused, None);
    assert_eq!(queue.in_flight(), 2);
    let zero: Hydrator<u32> = Hydrator::new(0);
    assert!(!zero.has_room());
    let (zero, refused) = zero.launch();
    assert_eq!(refused, None);
    assert_eq!(zero.in_flight(), 0);
}

#[test]
fn results_leave_in_the_order_of_the_launches() {
    let queue: Hydrator<&str> = Hydrator::new(3);
    let (queue, _) = queue.launch();
    let (queue, _) = queue.launch();
    let (queue, _) = queue.launch();
    let (queue, r) = queue.complete(2, "third");
    assert_eq!(r, Ok(()));
    let (queue, ready) = queue.pop_ready();
    assert_eq!(ready, None);
    let (queue, r) = queue.complete(1, "second");
    assert_eq!(r, Ok(()));
    let (queue, ready) = queue.pop_ready();
    assert_eq!(ready, None);
    assert_eq!(queue.in_flight(), 3);
    let (queue, r) = queue.complete(0, "first");
    assert_eq!(r, Ok(()));
    let (queue, a) = queue.pop_ready();
    let (queue, b) = queue.pop_ready();
    let (queue, c) = queue.pop_ready();
    let (queue, d) = queue.pop_ready();
    assert_eq!((a, b, c, d), (Some("first"), Some("second"), Some("third"), None));
    assert_eq!(queue.in_flight(), 0);
}

#[test]
fn room_comes_back_when_the_front_has_left() {
    let queue: Hydrator<u32> = Hydrator::new(2);
    let (queue, _) = queue.launch();
    let (queue, _) = queue.launch();
    let (queue, _) = queue.complete(1, 11);
    assert!(!queue.has_room());
    let (queue, _) = queue.complete(0, 10);
    let (queue, ready) = queue.pop_ready();
    assert_eq!(ready, Some(10));
    assert!(queue.has_room());
    let (queue, ticket) = queue.launch();
    assert_eq!(ticket, Some(2));
    let (queue, ready) = queue.pop_ready();
    assert_eq!(ready, Some(11));
    let (queue, ready) = queue.pop_ready();
    assert_eq!(ready, None);
    assert_eq!(queue.in_flight(), 1);
}

#[test]
fn a_result_for_an_unknown_ticket_is_handed_back() {
    let queue: Hydrator<u32> = Hydrator::new(2);
    let (queue, r) = queue.complete(0, 5);
    assert_eq!(r, Err(5));
    let (queue, _) = queue.launch();
    let (queue, r) = queue.complete(1, 6);
    assert_eq!(r, Err(6));
    let (queue, r) = queue.complete(u64::MAX, 7);
    assert_eq!(r, Err(7));
    let (queue, r) = queue.complete(0, 8);
    assert_eq!(r, Ok(()));
    let (queue, r) = queue.complete(0, 9);
    assert_eq!(r, Err(9));
    let (queue, ready) = queue.pop_ready();
    assert_eq!(ready, Some(8));
    let (_, r) = queue.complete(0, 10);
    assert_eq!(r, Err(10));
}

#[test]
fn any_order_of_arrival_gives_the_order_of_the_launches() {
    let arrivals: [[u64; 4]; 6] =
        [[0, 1, 2, 3], [3, 2, 1, 0], [1, 0, 3, 2], [2, 3, 0, 1], [3, 0, 2, 1], [1, 3, 2, 0]];
    for order in arrivals {
        let mut queue: Hydrator<u64> = Hydrator::new(4);
        for _ in 0..4 {
            queue = queue.launch().0;
        }
        let mut out = Vec::new();
        for ticket in order {
            queue = queue.complete(ticket, ticket * 100).0;
            loop {
                let (next, ready) = queue.pop_ready();
                queue = next;
                match ready {
                    Some(v) => out.push(v),
                    None => break,
                }
            }
            assert!(queue.in_flight() <= 4);
        }
        assert_eq!(out, vec![0, 100, 200, 300]);
    }
}

#[test]
fn a_long_listing_passes_through_a_narrow_queue() {
    let mut queue: Hydrator<u64> = Hydrator::new(3);
    let mut flying: Vec<u64> = Vec::new();
    let mut out = Vec::new();
    let mut listed = 0u64;
    while out.len() < 100 {
        while listed < 100 && queue.has_room() {
            let (next, ticket) = queue.launch();
            queue = next;
            flying.push(ticket.unwrap());
            listed += 1;
        }
        let ticket = flying.pop().unwrap();
        queue = queue.complete(ticket, ticket).0;
        loop {
            let (next, ready) = queue.pop_ready();
            queue = next;
            match ready {
                Some(v) => out.push(v),
                None => break,
            }
        }
        assert!(queue.in_flight() <= 3);
    }
    assert_eq!(out, (0..100).collect::<Vec<u64>>());
}
