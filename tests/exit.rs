use dias::exit::Exiter;

struct CountingExiter {
    calls: usize,
}

impl Exiter for CountingExiter {
    fn exit(&mut self) {
        self.calls += 1;
    }
}

fn boxed<E: 'static + Exiter>(exiter: E) -> Box<E> {
    Box::new(exiter)
}

#[test]
fn generic_boxability() {
    // Exiters can be stored, which for practical purposes requires boxing.
    let mut exiter = boxed(CountingExiter { calls: 0 });
    exiter.exit();
    assert_eq!(exiter.calls, 1);
    let _: Box<dyn Exiter> = exiter;
}
