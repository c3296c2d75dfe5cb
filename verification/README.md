# ui

Context-window usage figures for a conversation composer, verified with Verus.

- `src/decimal.rs`: decimal digits of unsigned integers, as a character sequence.
- `src/tokens.rs`: compact token counts (`500`, `13.7K`, `1.2M`).
- `src/context_ring.rs`: the clamped usage fraction, the rounded percentage, its
  severity band, the tooltip and accessible-label texts, and the laws that tie them.
- `app/`: the gpui widgets (the usage ring, the scrollbar rails) that draw them;
  their pixel geometry is floating point and is not verified.
